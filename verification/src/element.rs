//! The pipeline vocabulary that an element speaks: its kind, its pads, its
//! named string properties and the messages that flow between elements.
use vstd::prelude::*;
use vstd::string::StringExecFns;
use crate::text::{debug_quoted, debug_text};

verus! {

/// Where an element stands in a pipeline.
#[derive(Clone, Copy, Debug, PartialEq, Eq, Structural)]
pub enum ElementType {
    SOURCE,
    SINK,
    TRANSFORM,
}

/// Whether a pad takes data in or hands it out.
#[derive(Clone, Copy, Debug, PartialEq, Eq, Structural)]
pub enum ElementPadType {
    INPUT,
    OUTPUT,
}

/// The channel of an element that a pad is wired to.
#[derive(Clone, Copy, Debug, PartialEq, Eq, Structural)]
pub enum ElementChannelType {
    CHANNEL1,
    CHANNEL2,
}

/// The type of a property's value.
#[derive(Clone, Copy, Debug, PartialEq, Eq, Structural)]
pub enum ElementPropertyType {
    STRING,
}

/// The kinds of message that a pad can carry.
#[derive(Clone, Copy, Debug, PartialEq, Eq, Structural)]
pub enum MessageKind {
    StringMessage,
    EndDataMessage,
}

/// A message that travels from one element to the next: an identifier and
/// its payload.
#[derive(Debug)]
pub enum ElementStreamFormat {
    StringMessage(u64, Vec<String>),
    EndDataMessage(u64),
}

impl ElementStreamFormat {
    /// The kind of this message.
    pub fn kind(&self) -> (k: MessageKind)
        ensures
            k == (match self {
                ElementStreamFormat::StringMessage(..) => MessageKind::StringMessage,
                ElementStreamFormat::EndDataMessage(..) => MessageKind::EndDataMessage,
            }),
    {
        match self {
            ElementStreamFormat::StringMessage(..) => MessageKind::StringMessage,
            ElementStreamFormat::EndDataMessage(..) => MessageKind::EndDataMessage,
        }
    }
}

/// A named, typed, documented string setting of an element.
#[derive(Clone, Debug)]
pub struct ElementProperty {
    pub name: String,
    pub value: String,
    pub property_type: ElementPropertyType,
    pub description: String,
}

impl ElementProperty {
    pub fn new(name: &str, value: &str, property_type: ElementPropertyType, description: &str) -> (p: ElementProperty)
        ensures
            p.name@ == name@,
            p.value@ == value@,
            p.property_type == property_type,
            p.description@ == description@,
    {
        ElementProperty {
            name: name.to_owned(),
            value: value.to_owned(),
            property_type,
            description: description.to_owned(),
        }
    }

    /// The current value.
    pub fn get_value(&self) -> (v: String)
        ensures
            v@ == self.value@,
    {
        self.value.clone()
    }

    /// Replaces the value; name, type and description stay.
    pub fn set_value(&mut self, value: &str)
        ensures
            final(self).value@ == value@,
            final(self).name == old(self).name,
            final(self).property_type == old(self).property_type,
            final(self).description == old(self).description,
    {
        self.value = value.to_owned();
    }

    /// A copy with the same name, value, type and description.
    pub fn copy(&self) -> (p: ElementProperty)
        ensures
            p == *self,
    {
        ElementProperty {
            name: self.name.clone(),
            value: self.value.clone(),
            property_type: self.property_type,
            description: self.description.clone(),
        }
    }
}

/// A connection point of an element: the channel it uses, its name, its
/// direction, the message kinds it carries and what it is for.
#[derive(Clone, Debug)]
pub struct ElementPad {
    pub channel_type: ElementChannelType,
    pub name: String,
    pub pad_type: ElementPadType,
    pub data_formats: Vec<MessageKind>,
    pub description: String,
}

impl ElementPad {
    pub fn new(
        channel_type: ElementChannelType,
        name: String,
        pad_type: ElementPadType,
        data_formats: Vec<MessageKind>,
        description: &str,
    ) -> (p: ElementPad)
        ensures
            p.channel_type == channel_type,
            p.name == name,
            p.pad_type == pad_type,
            p.data_formats == data_formats,
            p.description@ == description@,
    {
        ElementPad { channel_type, name, pad_type, data_formats, description: description.to_owned() }
    }

    /// A copy with the same channel, name, direction, kinds and description.
    pub fn copy(&self) -> (p: ElementPad)
        ensures
            p.channel_type == self.channel_type,
            p.name == self.name,
            p.pad_type == self.pad_type,
            p.data_formats@ == self.data_formats@,
            p.description == self.description,
    {
        let mut formats: Vec<MessageKind> = Vec::new();
        let mut i: usize = 0;
        while i < self.data_formats.len()
            invariant
                i <= self.data_formats@.len(),
                formats@ == self.data_formats@.subrange(0, i as int),
            decreases self.data_formats@.len() - i,
        {
            formats.push(self.data_formats[i]);
            i = i + 1;
            assert(formats@ =~= self.data_formats@.subrange(0, i as int));
        }
        assert(formats@ =~= self.data_formats@);
        ElementPad {
            channel_type: self.channel_type,
            name: self.name.clone(),
            pad_type: self.pad_type,
            data_formats: formats,
            description: self.description.clone(),
        }
    }
}

/// The name a unit variant prints as.
pub open spec fn kind_name(k: MessageKind) -> Seq<char> {
    match k {
        MessageKind::StringMessage => "StringMessage"@,
        MessageKind::EndDataMessage => "EndDataMessage"@,
    }
}

pub open spec fn channel_name(c: ElementChannelType) -> Seq<char> {
    match c {
        ElementChannelType::CHANNEL1 => "CHANNEL1"@,
        ElementChannelType::CHANNEL2 => "CHANNEL2"@,
    }
}

pub open spec fn pad_type_name(t: ElementPadType) -> Seq<char> {
    match t {
        ElementPadType::INPUT => "INPUT"@,
        ElementPadType::OUTPUT => "OUTPUT"@,
    }
}

/// The kinds' names separated by ", ".
pub open spec fn kinds_text(ks: Seq<MessageKind>) -> Seq<char>
    decreases ks.len(),
{
    if ks.len() == 0 {
        Seq::empty()
    } else if ks.len() == 1 {
        kind_name(ks[0])
    } else {
        kinds_text(ks.drop_last()) + ", "@ + kind_name(ks.last())
    }
}

/// The `{:?}` form of a pad, field by field as its derived `Debug` writes it.
pub open spec fn pad_debug_text(p: ElementPad) -> Seq<char> {
    "ElementPad { channel_type: "@ + channel_name(p.channel_type) + ", name: "@ + debug_quoted(p.name@)
        + ", pad_type: "@ + pad_type_name(p.pad_type) + ", data_formats: ["@ + kinds_text(p.data_formats@)
        + "], description: "@ + debug_quoted(p.description@) + " }"@
}

impl MessageKind {
    fn name(&self) -> (n: &'static str)
        ensures
            n@ == kind_name(*self),
    {
        match self {
            MessageKind::StringMessage => "StringMessage",
            MessageKind::EndDataMessage => "EndDataMessage",
        }
    }
}

impl ElementPad {
    /// The pad as `{:?}` shows it.
    pub fn debug_text(&self) -> (s: String)
        ensures
            s@ == pad_debug_text(*self),
    {
        let mut s = "ElementPad { channel_type: ".to_owned();
        match self.channel_type {
            ElementChannelType::CHANNEL1 => s.append("CHANNEL1"),
            ElementChannelType::CHANNEL2 => s.append("CHANNEL2"),
        }
        s.append(", name: ");
        let name = debug_text(self.name.as_str());
        s.append(name.as_str());
        s.append(", pad_type: ");
        match self.pad_type {
            ElementPadType::INPUT => s.append("INPUT"),
            ElementPadType::OUTPUT => s.append("OUTPUT"),
        }
        s.append(", data_formats: [");
        let ghost prefix = s@;
        let n = self.data_formats.len();
        let mut i: usize = 0;
        while i < n
            invariant
                n == self.data_formats@.len(),
                i <= n,
                s@ == prefix + kinds_text(self.data_formats@.take(i as int)),
            decreases n - i,
        {
            let ghost before = s@;
            if i > 0 {
                s.append(", ");
            }
            s.append(self.data_formats[i].name());
            proof {
                let t = self.data_formats@.take(i + 1);
                assert(t.drop_last() =~= self.data_formats@.take(i as int));
                assert(t.last() == self.data_formats@[i as int]);
                if i == 0 {
                    assert(self.data_formats@.take(0) =~= Seq::<MessageKind>::empty());
                }
            }
            i = i + 1;
        }
        assert(self.data_formats@.take(n as int) =~= self.data_formats@);
        s.append("], description: ");
        let desc = debug_text(self.description.as_str());
        s.append(desc.as_str());
        s.append(" }");
        s
    }
}

} // verus!
