//! The properties of an MQTT 5 PUBLISH packet.

use vstd::prelude::*;

verus! {

/// A property of an MQTT 5 PUBLISH packet.
#[derive(Debug, PartialEq, Eq)]
pub enum Property {
    /// A name and a value of the application's own.
    UserProperty(String, String),
    /// The lifetime of the packet in seconds.
    MessageExpiryInterval(u32),
    /// Data by which a response is related to its request.
    CorrelationData(Vec<u8>),
    /// A description of the payload. It is absent if it is not a text in UTF-8.
    ContentType(Option<String>),
}

/// What a [`Property`] holds.
#[verifier::ext_equal]
pub enum PropertyView {
    UserProperty(Seq<char>, Seq<char>),
    MessageExpiryInterval(u32),
    CorrelationData(Seq<u8>),
    ContentType(Option<Seq<char>>),
}

impl View for Property {
    type V = PropertyView;

    open spec fn view(&self) -> PropertyView {
        match self {
            Property::UserProperty(key, value) => PropertyView::UserProperty(key@, value@),
            Property::MessageExpiryInterval(seconds) => PropertyView::MessageExpiryInterval(
                *seconds,
            ),
            Property::CorrelationData(data) => PropertyView::CorrelationData(data@),
            Property::ContentType(text) => PropertyView::ContentType(
                match text {
                    Some(text) => Some(text@),
                    None => None,
                },
            ),
        }
    }
}

/// Which properties to look for.
pub enum Wanted {
    UserProperty(Seq<char>),
    MessageExpiryInterval,
    CorrelationData,
    ContentType,
}

/// Whether a property is one of those to look for.
pub open spec fn is_wanted(property: PropertyView, wanted: Wanted) -> bool {
    match property {
        PropertyView::UserProperty(key, _) => wanted == Wanted::UserProperty(key),
        PropertyView::MessageExpiryInterval(_) => wanted == Wanted::MessageExpiryInterval,
        PropertyView::CorrelationData(_) => wanted == Wanted::CorrelationData,
        PropertyView::ContentType(_) => wanted == Wanted::ContentType,
    }
}

/// The wanted properties, in the order in which they stand.
pub open spec fn select(properties: Seq<PropertyView>, wanted: Wanted) -> Seq<PropertyView>
    decreases properties.len(),
{
    if properties.len() == 0 {
        Seq::empty()
    } else if is_wanted(properties[0], wanted) {
        seq![properties[0]] + select(properties.drop_first(), wanted)
    } else {
        select(properties.drop_first(), wanted)
    }
}

/// The value of the first user property with a key.
pub open spec fn user_property(properties: Seq<PropertyView>, key: Seq<char>) -> Option<
    Seq<char>,
> {
    let found = select(properties, Wanted::UserProperty(key));
    if found.len() == 0 {
        None
    } else {
        Some(found[0]->UserProperty_1)
    }
}

/// The first message expiry interval.
pub open spec fn message_expiry_interval(properties: Seq<PropertyView>) -> Option<u32> {
    let found = select(properties, Wanted::MessageExpiryInterval);
    if found.len() == 0 {
        None
    } else {
        Some(found[0]->MessageExpiryInterval_0)
    }
}

/// The first correlation data.
pub open spec fn correlation_data(properties: Seq<PropertyView>) -> Option<Seq<u8>> {
    let found = select(properties, Wanted::CorrelationData);
    if found.len() == 0 {
        None
    } else {
        Some(found[0]->CorrelationData_0)
    }
}

/// All content types, in the order in which they stand. One that is not a text is absent.
pub open spec fn content_types(properties: Seq<PropertyView>) -> Seq<Option<Seq<char>>> {
    let found = select(properties, Wanted::ContentType);
    Seq::new(found.len(), |i: int| found[i]->ContentType_0)
}

/// The properties of a packet, in the order in which they stand.
#[derive(Debug, PartialEq, Eq)]
pub struct Properties {
    list: Vec<Property>,
}

impl View for Properties {
    type V = Seq<PropertyView>;

    closed spec fn view(&self) -> Seq<PropertyView> {
        Seq::new(self.list@.len(), |i: int| self.list@[i]@)
    }
}

impl Properties {
    /// No properties.
    pub fn new() -> (r: Properties)
        ensures
            r@ == Seq::<PropertyView>::empty(),
    {
        Properties { list: Vec::new() }
    }

    /// Adds a property behind the others.
    pub fn push(&mut self, property: Property)
        ensures
            final(self)@ == old(self)@.push(property@),
    {
        let ghost before = self@;
        self.list.push(property);
        assert(self@ =~= before.push(property@));
    }

    /// The properties as a list.
    pub fn into_list(self) -> (list: Vec<Property>)
        ensures
            list@.len() == self@.len(),
            forall|i: int| 0 <= i < list@.len() ==> (#[trigger] list@[i])@ == self@[i],
    {
        self.list
    }

    /// The value of the first user property with a key.
    pub fn find_user_property(&self, key: &str) -> (r: Option<String>)
        ensures
            match r {
                Some(value) => user_property(self@, key@) == Some(value@),
                None => user_property(self@, key@) is None,
            },
    {
        let ghost wanted = Wanted::UserProperty(key@);
        let name = key.to_string();
        let mut i: usize = 0;
        assert(self@.skip(0) =~= self@);
        while i < self.list.len()
            invariant
                i <= self.list@.len(),
                wanted == Wanted::UserProperty(key@),
                name@ == key@,
                select(self@, wanted) == select(self@.skip(i as int), wanted),
            decreases self.list@.len() - i,
        {
            proof {
                lemma_select_step(self@, i as int, wanted);
            }
            if let Property::UserProperty(k, v) = &self.list[i] {
                if *k == name {
                    return Some(v.clone());
                }
            }
            i = i + 1;
        }
        None
    }

    /// The first message expiry interval.
    pub fn message_expiry_interval(&self) -> (r: Option<u32>)
        ensures
            r == message_expiry_interval(self@),
    {
        let ghost wanted = Wanted::MessageExpiryInterval;
        let mut i: usize = 0;
        assert(self@.skip(0) =~= self@);
        while i < self.list.len()
            invariant
                i <= self.list@.len(),
                wanted == Wanted::MessageExpiryInterval,
                select(self@, wanted) == select(self@.skip(i as int), wanted),
            decreases self.list@.len() - i,
        {
            proof {
                lemma_select_step(self@, i as int, wanted);
            }
            if let Property::MessageExpiryInterval(seconds) = &self.list[i] {
                return Some(*seconds);
            }
            i = i + 1;
        }
        None
    }

    /// The first correlation data.
    pub fn correlation_data(&self) -> (r: Option<Vec<u8>>)
        ensures
            match r {
                Some(data) => correlation_data(self@) == Some(data@),
                None => correlation_data(self@) is None,
            },
    {
        let ghost wanted = Wanted::CorrelationData;
        let mut i: usize = 0;
        assert(self@.skip(0) =~= self@);
        while i < self.list.len()
            invariant
                i <= self.list@.len(),
                wanted == Wanted::CorrelationData,
                select(self@, wanted) == select(self@.skip(i as int), wanted),
            decreases self.list@.len() - i,
        {
            proof {
                lemma_select_step(self@, i as int, wanted);
            }
            if let Property::CorrelationData(data) = &self.list[i] {
                let copy = data.clone();
                assert(copy@ =~= data@);
                return Some(copy);
            }
            i = i + 1;
        }
        None
    }

    /// How many content types there are.
    pub fn content_type_count(&self) -> (count: usize)
        ensures
            count == content_types(self@).len(),
    {
        let ghost wanted = Wanted::ContentType;
        let mut count: usize = 0;
        let mut i: usize = 0;
        assert(self@.skip(0) =~= self@);
        while i < self.list.len()
            invariant
                count <= i <= self.list@.len(),
                wanted == Wanted::ContentType,
                select(self@, wanted).len() == count + select(self@.skip(i as int), wanted).len(),
            decreases self.list@.len() - i,
        {
            proof {
                lemma_select_step(self@, i as int, wanted);
            }
            if let Property::ContentType(_) = &self.list[i] {
                count = count + 1;
            }
            i = i + 1;
        }
        count
    }

    /// The first content type, if there is one and it is a text.
    pub fn content_type(&self) -> (r: Option<String>)
        ensures
            match r {
                Some(text) => {
                    &&& content_types(self@).len() > 0
                    &&& content_types(self@)[0] == Some(text@)
                },
                None => content_types(self@).len() > 0 ==> content_types(self@)[0] is None,
            },
    {
        let ghost wanted = Wanted::ContentType;
        let mut i: usize = 0;
        assert(self@.skip(0) =~= self@);
        while i < self.list.len()
            invariant
                i <= self.list@.len(),
                wanted == Wanted::ContentType,
                select(self@, wanted) == select(self@.skip(i as int), wanted),
            decreases self.list@.len() - i,
        {
            proof {
                lemma_select_step(self@, i as int, wanted);
            }
            if let Property::ContentType(text) = &self.list[i] {
                return match text {
                    Some(text) => Some(text.clone()),
                    None => None,
                };
            }
            i = i + 1;
        }
        None
    }
}

proof fn lemma_select_step(properties: Seq<PropertyView>, i: int, wanted: Wanted)
    requires
        0 <= i < properties.len(),
    ensures
        select(properties.skip(i), wanted) == if is_wanted(properties[i], wanted) {
            seq![properties[i]] + select(properties.skip(i + 1), wanted)
        } else {
            select(properties.skip(i + 1), wanted)
        },
{
    assert(properties.skip(i).drop_first() =~= properties.skip(i + 1));
}

} // verus!
