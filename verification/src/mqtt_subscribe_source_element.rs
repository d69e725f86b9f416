//! A pipeline source element that subscribes to an MQTT broker and passes each
//! message it receives on as a string message.
use vstd::prelude::*;
use crate::element::{ElementChannelType, ElementPad, ElementPadType, ElementProperty, ElementPropertyType, ElementType, MessageKind};
use crate::errors::ErrorKind;
use crate::text::str_eq;

verus! {

/// The MQTT subscribe source element: one output pad and five string
/// properties (broker host and port, user, password, topic). The output pad
/// is always the one a new element has.
#[derive(Debug)]
pub struct MqttSubscribeSourceElement {
    output_pad1: ElementPad,
    host: ElementProperty,
    port: ElementProperty,
    user: ElementProperty,
    password: ElementProperty,
    topic: ElementProperty,
}

/// Which property a name selects: 0 host, 1 port, 2 user, 3 password,
/// 4 topic, and -1 for a name that selects none.
pub open spec fn key_index(name: Seq<char>) -> int {
    if name == "host"@ {
        0
    } else if name == "port"@ {
        1
    } else if name == "user"@ {
        2
    } else if name == "password"@ {
        3
    } else if name == "topic"@ {
        4
    } else {
        -1
    }
}

/// The value after a set: the new value for the selected property, else the old one.
pub open spec fn updated(old_value: Seq<char>, selected: bool, value: Seq<char>) -> Seq<char> {
    if selected {
        value
    } else {
        old_value
    }
}

/// Two properties agree on everything but their values.
pub open spec fn same_meta(p: ElementProperty, q: ElementProperty) -> bool {
    &&& p.name == q.name
    &&& p.property_type == q.property_type
    &&& p.description == q.description
}

impl MqttSubscribeSourceElement {
    #[verifier::type_invariant]
    spec fn wf(self) -> bool {
        Self::initial_pad(self.output_pad1)
    }

    /// The output pad.
    pub closed spec fn pad(self) -> ElementPad {
        self.output_pad1
    }

    /// The property with index `k` (0 host, 1 port, 2 user, 3 password,
    /// 4 topic).
    pub closed spec fn prop(self, k: int) -> ElementProperty {
        if k == 0 {
            self.host
        } else if k == 1 {
            self.port
        } else if k == 2 {
            self.user
        } else if k == 3 {
            self.password
        } else {
            self.topic
        }
    }

    /// The value of the property that `name` selects, if it selects one.
    pub open spec fn property_value(self, name: Seq<char>) -> Option<Seq<char>> {
        let k = key_index(name);
        if 0 <= k < 5 {
            Some(self.prop(k).value@)
        } else {
            None
        }
    }

    /// Two elements agree on everything but the properties' values.
    pub open spec fn same_but_values(self, other: Self) -> bool {
        &&& self.pad() == other.pad()
        &&& same_meta(self.prop(0), other.prop(0))
        &&& same_meta(self.prop(1), other.prop(1))
        &&& same_meta(self.prop(2), other.prop(2))
        &&& same_meta(self.prop(3), other.prop(3))
        &&& same_meta(self.prop(4), other.prop(4))
    }

    /// `after` is `before` with the value of the property that `name` selects
    /// replaced by `value`, and nothing else changed.
    pub open spec fn property_set(before: Self, after: Self, name: Seq<char>, value: Seq<char>) -> bool {
        let k = key_index(name);
        &&& after.same_but_values(before)
        &&& after.prop(0).value@ == updated(before.prop(0).value@, k == 0, value)
        &&& after.prop(1).value@ == updated(before.prop(1).value@, k == 1, value)
        &&& after.prop(2).value@ == updated(before.prop(2).value@, k == 2, value)
        &&& after.prop(3).value@ == updated(before.prop(3).value@, k == 3, value)
        &&& after.prop(4).value@ == updated(before.prop(4).value@, k == 4, value)
    }

    /// The output pad every element has.
    pub open spec fn initial_pad(pad: ElementPad) -> bool {
        &&& pad.channel_type == ElementChannelType::CHANNEL1
        &&& pad.name@ == "mqtt_subscribe_element_output1"@
        &&& pad.pad_type == ElementPadType::OUTPUT
        &&& pad.data_formats@ == seq![MessageKind::StringMessage]
        &&& pad.description@ == "Watches for any events from the mqtt broker"@
    }

    /// A property with the given name, value and description, of type string.
    pub open spec fn property_is(p: ElementProperty, name: Seq<char>, value: Seq<char>, description: Seq<char>) -> bool {
        &&& p.name@ == name
        &&& p.value@ == value
        &&& p.property_type == ElementPropertyType::STRING
        &&& p.description@ == description
    }

    /// The state of a new element.
    pub open spec fn is_initial(self) -> bool {
        &&& Self::initial_pad(self.pad())
        &&& Self::property_is(self.prop(0), "host"@, ""@, "Host of mqtt server"@)
        &&& Self::property_is(self.prop(1), "port"@, "21"@, "Port of mqtt server"@)
        &&& Self::property_is(self.prop(2), "username"@, ""@, "Username of mqtt server"@)
        &&& Self::property_is(self.prop(3), "password"@, ""@, "Port of mqtt server"@)
        &&& Self::property_is(self.prop(4), "topic"@, ""@, "Topic to subscribe"@)
    }

    /// The output pad.
    pub fn output_pad(&self) -> (p: &ElementPad)
        ensures
            *p == self.pad(),
            Self::initial_pad(*p),
    {
        proof {
            use_type_invariant(self);
        }
        &self.output_pad1
    }

    /// The broker host property.
    pub fn host(&self) -> (p: &ElementProperty)
        ensures
            *p == self.prop(0),
    {
        &self.host
    }

    /// The broker port property.
    pub fn port(&self) -> (p: &ElementProperty)
        ensures
            *p == self.prop(1),
    {
        &self.port
    }

    /// The user property (named "username", set and read as "user").
    pub fn user(&self) -> (p: &ElementProperty)
        ensures
            *p == self.prop(2),
    {
        &self.user
    }

    /// The password property.
    pub fn password(&self) -> (p: &ElementProperty)
        ensures
            *p == self.prop(3),
    {
        &self.password
    }

    /// The topic property.
    pub fn topic(&self) -> (p: &ElementProperty)
        ensures
            *p == self.prop(4),
    {
        &self.topic
    }

    /// A new element with the default pad and properties.
    pub fn new() -> (e: Self)
        ensures
            e.is_initial(),
    {
        let e: Self = Default::default();
        e
    }

    /// A new element whose five properties are the given ones (what reading an
    /// element back from its JSON form gives).
    pub fn with_properties(
        host: ElementProperty,
        port: ElementProperty,
        user: ElementProperty,
        password: ElementProperty,
        topic: ElementProperty,
    ) -> (e: Self)
        ensures
            Self::initial_pad(e.pad()),
            e.prop(0) == host,
            e.prop(1) == port,
            e.prop(2) == user,
            e.prop(3) == password,
            e.prop(4) == topic,
    {
        let e = Self::new();
        proof {
            use_type_invariant(&e);
        }
        MqttSubscribeSourceElement { output_pad1: e.output_pad1, host, port, user, password, topic }
    }

    /// The element's registered name, as the source text of a string literal
    /// (quotes included).
    pub fn get_element_name() -> (n: &'static str)
        ensures
            n@ == "\"MqttSubscribeSourceElement\""@,
    {
        "\"MqttSubscribeSourceElement\""
    }

    /// The element's name.
    pub fn get_name(&self) -> (n: String)
        ensures
            n@ == "MqttSubscribeSourceElement"@,
    {
        "MqttSubscribeSourceElement".to_owned()
    }

    /// A boxed copy of the element: same pad, same properties.
    pub fn box_clone(&self) -> (b: Box<Self>)
        ensures
            b.pad().channel_type == self.pad().channel_type,
            b.pad().name == self.pad().name,
            b.pad().pad_type == self.pad().pad_type,
            b.pad().data_formats@ == self.pad().data_formats@,
            b.pad().description == self.pad().description,
            b.prop(0) == self.prop(0),
            b.prop(1) == self.prop(1),
            b.prop(2) == self.prop(2),
            b.prop(3) == self.prop(3),
            b.prop(4) == self.prop(4),
    {
        proof {
            use_type_invariant(self);
        }
        Box::new(
            MqttSubscribeSourceElement {
                output_pad1: self.output_pad1.copy(),
                host: self.host.copy(),
                port: self.port.copy(),
                user: self.user.copy(),
                password: self.password.copy(),
                topic: self.topic.copy(),
            },
        )
    }

    /// The element is a source.
    pub fn get_type(&self) -> (t: ElementType)
        ensures
            t == ElementType::SOURCE,
    {
        ElementType::SOURCE
    }

    /// Sets the value of the property that `property_name` selects ("host",
    /// "port", "user", "password" or "topic"); any other name changes nothing.
    /// Never fails.
    pub fn set_property(&mut self, property_name: &str, property_value: &str) -> (r: Result<(), ErrorKind>)
        ensures
            r is Ok,
            Self::property_set(*old(self), *final(self), property_name@, property_value@),
    {
        proof {
            use_type_invariant(&*self);
        }
        if str_eq(property_name, "host") {
            self.host.value = property_value.to_owned();
            return Ok(());
        } else if str_eq(property_name, "port") {
            self.port.value = property_value.to_owned();
            return Ok(());
        } else if str_eq(property_name, "user") {
            self.user.value = property_value.to_owned();
            return Ok(());
        } else if str_eq(property_name, "password") {
            self.password.value = property_value.to_owned();
            return Ok(());
        } else if str_eq(property_name, "topic") {
            self.topic.value = property_value.to_owned();
            return Ok(());
        }
        Ok(())
    }

    /// The value of the property that `property_name` selects, or `None`.
    pub fn get_property(&self, property_name: &str) -> (r: Option<String>)
        ensures
            r matches Some(v) ==> self.property_value(property_name@) == Some(v@),
            r is None ==> self.property_value(property_name@) is None,
    {
        if str_eq(property_name, "host") {
            return Some(self.host.get_value());
        } else if str_eq(property_name, "port") {
            return Some(self.port.get_value());
        } else if str_eq(property_name, "user") {
            return Some(self.user.get_value());
        } else if str_eq(property_name, "password") {
            return Some(self.password.get_value());
        } else if str_eq(property_name, "topic") {
            return Some(self.topic.get_value());
        }
        None
    }

    /// A source has no input pads.
    pub fn get_input_pads(&self) -> (pads: (Option<ElementPad>, Option<ElementPad>))
        ensures
            pads.0 is None,
            pads.1 is None,
    {
        (None, None)
    }

    /// A copy of the one output pad, in the first place.
    pub fn get_output_pads(&self) -> (pads: (Option<ElementPad>, Option<ElementPad>))
        ensures
            pads.0 matches Some(p) && {
                &&& p.channel_type == self.pad().channel_type
                &&& p.name == self.pad().name
                &&& p.pad_type == self.pad().pad_type
                &&& p.data_formats@ == self.pad().data_formats@
                &&& p.description == self.pad().description
                &&& Self::initial_pad(p)
            },
            pads.1 is None,
    {
        proof {
            use_type_invariant(self);
        }
        (Some(self.output_pad1.copy()), None)
    }
}

/// A property set through its name reads back as the value written.
pub proof fn lemma_get_after_set(before: MqttSubscribeSourceElement, after: MqttSubscribeSourceElement, name: Seq<char>, value: Seq<char>)
    requires
        MqttSubscribeSourceElement::property_set(before, after, name, value),
        before.property_value(name) is Some,
    ensures
        after.property_value(name) == Some(value),
{
}

/// Setting one property leaves every other name reading as before.
pub proof fn lemma_set_leaves_others(
    before: MqttSubscribeSourceElement,
    after: MqttSubscribeSourceElement,
    name: Seq<char>,
    value: Seq<char>,
    other: Seq<char>,
)
    requires
        MqttSubscribeSourceElement::property_set(before, after, name, value),
        other != name,
    ensures
        after.property_value(other) == before.property_value(other),
{
}

/// Setting through a name that selects no property changes no value, and
/// such a name reads as nothing.
pub proof fn lemma_set_unknown_changes_nothing(
    before: MqttSubscribeSourceElement,
    after: MqttSubscribeSourceElement,
    name: Seq<char>,
    value: Seq<char>,
)
    requires
        MqttSubscribeSourceElement::property_set(before, after, name, value),
        before.property_value(name) is None,
    ensures
        forall|n: Seq<char>| #[trigger] after.property_value(n) == before.property_value(n),
        after.property_value(name) is None,
{
}

/// Of two sets through the same name, the second alone counts.
pub proof fn lemma_last_set_wins(
    a: MqttSubscribeSourceElement,
    b: MqttSubscribeSourceElement,
    c: MqttSubscribeSourceElement,
    d: MqttSubscribeSourceElement,
    name: Seq<char>,
    v1: Seq<char>,
    v2: Seq<char>,
)
    requires
        MqttSubscribeSourceElement::property_set(a, b, name, v1),
        MqttSubscribeSourceElement::property_set(b, c, name, v2),
        MqttSubscribeSourceElement::property_set(a, d, name, v2),
    ensures
        forall|n: Seq<char>| #[trigger] c.property_value(n) == d.property_value(n),
        c.same_but_values(d),
{
}

/// Exactly the five names "host", "port", "user", "password" and "topic"
/// select a property.
pub proof fn lemma_property_names(e: MqttSubscribeSourceElement, name: Seq<char>)
    ensures
        e.property_value(name) is Some <==> (name == "host"@ || name == "port"@ || name == "user"@ || name
            == "password"@ || name == "topic"@),
{
}

/// The five property names select host, port, user, password and topic in
/// that order; "username", the user property's own name, selects nothing.
pub proof fn lemma_key_indices()
    ensures
        key_index("host"@) == 0,
        key_index("port"@) == 1,
        key_index("user"@) == 2,
        key_index("password"@) == 3,
        key_index("topic"@) == 4,
        key_index("username"@) == -1,
{
    reveal_strlit("host");
    reveal_strlit("port");
    reveal_strlit("user");
    reveal_strlit("password");
    reveal_strlit("topic");
    reveal_strlit("username");
    assert("host"@[0] == 'h');
    assert("port"@[0] == 'p');
    assert("user"@[0] == 'u');
    assert("password"@[0] == 'p' && "password"@.len() == 8);
    assert("topic"@[0] == 't');
    assert("username"@.len() == 8 && "username"@[0] == 'u');
    assert("port"@ != "host"@);
    assert("user"@ != "host"@ && "user"@ != "port"@);
    assert("password"@ != "host"@ && "password"@ != "port"@ && "password"@ != "user"@);
    assert("topic"@ != "host"@ && "topic"@ != "port"@ && "topic"@ != "user"@ && "topic"@ != "password"@);
    assert("username"@ != "host"@ && "username"@ != "port"@ && "username"@ != "user"@
        && "username"@ != "password"@ && "username"@ != "topic"@);
}

/// A new element reads "21" for the port and empty text for host, user,
/// password and topic; the user property is set and read as "user", though
/// it is named "username", which selects nothing.
pub proof fn lemma_initial_values(e: MqttSubscribeSourceElement)
    requires
        e.is_initial(),
    ensures
        e.property_value("host"@) == Some(Seq::<char>::empty()),
        e.property_value("port"@) == Some("21"@),
        e.property_value("user"@) == Some(Seq::<char>::empty()),
        e.property_value("password"@) == Some(Seq::<char>::empty()),
        e.property_value("topic"@) == Some(Seq::<char>::empty()),
        e.property_value("username"@) is None,
{
    lemma_key_indices();
    reveal_strlit("");
}

impl Clone for MqttSubscribeSourceElement {
    /// A copy with the same pad and the same properties.
    fn clone(&self) -> (c: Self)
        ensures
            c.pad().channel_type == self.pad().channel_type,
            c.pad().name == self.pad().name,
            c.pad().pad_type == self.pad().pad_type,
            c.pad().data_formats@ == self.pad().data_formats@,
            c.pad().description == self.pad().description,
            c.prop(0) == self.prop(0),
            c.prop(1) == self.prop(1),
            c.prop(2) == self.prop(2),
            c.prop(3) == self.prop(3),
            c.prop(4) == self.prop(4),
    {
        *self.box_clone()
    }
}

impl Default for MqttSubscribeSourceElement {
    fn default() -> (e: Self)
        ensures
            e.is_initial(),
    {
        let mut formats: Vec<MessageKind> = Vec::new();
        formats.push(MessageKind::StringMessage);
        proof {
            assert(formats@ =~= seq![MessageKind::StringMessage]);
        }
        MqttSubscribeSourceElement {
            output_pad1: ElementPad::new(
                ElementChannelType::CHANNEL1,
                "mqtt_subscribe_element_output1".to_owned(),
                ElementPadType::OUTPUT,
                formats,
                "Watches for any events from the mqtt broker",
            ),
            host: ElementProperty::new("host", "", ElementPropertyType::STRING, "Host of mqtt server"),
            port: ElementProperty::new("port", "21", ElementPropertyType::STRING, "Port of mqtt server"),
            user: ElementProperty::new("username", "", ElementPropertyType::STRING, "Username of mqtt server"),
            password: ElementProperty::new("password", "", ElementPropertyType::STRING, "Port of mqtt server"),
            topic: ElementProperty::new("topic", "", ElementPropertyType::STRING, "Topic to subscribe"),
        }
    }
}

} // verus!
