//! Raw items as the table store returns them: named attributes with values.

use vstd::prelude::*;

verus! {

/// The value of one attribute of a raw item.
#[derive(Debug, PartialEq, Eq)]
pub enum AttributeValue {
    /// A string.
    S(String),
    /// A number, in the store's decimal text form.
    N(String),
    /// A boolean.
    Bool(bool),
    /// The null value.
    Null,
    /// A binary, set, list or map value. No record shape of this library reads one.
    Other,
}

/// The mathematical value of an [`AttributeValue`].
pub ghost enum AttributeValueView {
    S(Seq<char>),
    N(Seq<char>),
    Bool(bool),
    Null,
    Other,
}

impl View for AttributeValue {
    type V = AttributeValueView;

    open spec fn view(&self) -> AttributeValueView {
        match self {
            AttributeValue::S(s) => AttributeValueView::S(s@),
            AttributeValue::N(n) => AttributeValueView::N(n@),
            AttributeValue::Bool(b) => AttributeValueView::Bool(*b),
            AttributeValue::Null => AttributeValueView::Null,
            AttributeValue::Other => AttributeValueView::Other,
        }
    }
}

impl Clone for AttributeValue {
    fn clone(&self) -> (r: Self)
        ensures
            r@ == self@,
    {
        match self {
            AttributeValue::S(s) => AttributeValue::S(s.clone()),
            AttributeValue::N(n) => AttributeValue::N(n.clone()),
            AttributeValue::Bool(b) => AttributeValue::Bool(*b),
            AttributeValue::Null => AttributeValue::Null,
            AttributeValue::Other => AttributeValue::Other,
        }
    }
}

impl AttributeValue {
    /// The string that a string value holds; `None` for every other value.
    pub fn as_s(&self) -> (r: Option<&String>)
        ensures
            match self@ {
                AttributeValueView::S(s) => r matches Some(held) && held@ == s,
                _ => r is None,
            },
    {
        match self {
            AttributeValue::S(s) => Some(s),
            _ => None,
        }
    }
}

/// One named attribute.
#[derive(Debug, PartialEq, Eq)]
pub struct Attribute {
    pub name: String,
    pub value: AttributeValue,
}

impl Clone for Attribute {
    fn clone(&self) -> (r: Self)
        ensures
            r.name@ == self.name@,
            r.value@ == self.value@,
    {
        Attribute { name: self.name.clone(), value: self.value.clone() }
    }
}

/// The mathematical value of an [`Item`]: a finite map from attribute names to values.
pub type ItemView = Map<Seq<char>, AttributeValueView>;

/// No two of the attributes have the same name.
pub open spec fn distinct_names(attributes: Seq<Attribute>) -> bool {
    forall|i: int, j: int|
        0 <= i < j < attributes.len() ==> attributes[i].name@ != attributes[j].name@
}

/// Whether one of the attributes has this name.
pub open spec fn has_name(attributes: Seq<Attribute>, name: Seq<char>) -> bool {
    exists|i: int| 0 <= i < attributes.len() && #[trigger] attributes[i].name@ == name
}

/// The place of an attribute with this name, where there is one.
pub open spec fn position_of(attributes: Seq<Attribute>, name: Seq<char>) -> int {
    choose|i: int| 0 <= i < attributes.len() && #[trigger] attributes[i].name@ == name
}

/// The map that a list of attributes stands for.
pub open spec fn attribute_map(attributes: Seq<Attribute>) -> ItemView {
    Map::new(
        |name: Seq<char>| has_name(attributes, name),
        |name: Seq<char>| attributes[position_of(attributes, name)].value@,
    )
}

/// Where names are distinct, the attribute at place `i` is the one its name maps to.
pub proof fn lemma_attribute_at(attributes: Seq<Attribute>, i: int)
    requires
        distinct_names(attributes),
        0 <= i < attributes.len(),
    ensures
        attribute_map(attributes).dom().contains(attributes[i].name@),
        attribute_map(attributes)[attributes[i].name@] == attributes[i].value@,
        position_of(attributes, attributes[i].name@) == i,
{
    let name = attributes[i].name@;
    assert(has_name(attributes, name));
    let j = position_of(attributes, name);
    assert(0 <= j < attributes.len() && attributes[j].name@ == name);
    if j < i {
        assert(attributes[j].name@ != attributes[i].name@);
    } else if i < j {
        assert(attributes[i].name@ != attributes[j].name@);
    }
}

/// Appending an attribute with a new name adds one entry to the map.
pub proof fn lemma_attribute_map_push(attributes: Seq<Attribute>, added: Attribute)
    requires
        distinct_names(attributes),
        !has_name(attributes, added.name@),
    ensures
        distinct_names(attributes.push(added)),
        attribute_map(attributes.push(added)) == attribute_map(attributes).insert(
            added.name@,
            added.value@,
        ),
{
    let longer = attributes.push(added);
    assert forall|i: int, j: int| 0 <= i < j < longer.len() implies longer[i].name@
        != longer[j].name@ by {
        if j < attributes.len() {
            assert(attributes[i].name@ != attributes[j].name@);
        } else {
            assert(attributes[i].name@ == longer[i].name@);
        }
    }
    let expected = attribute_map(attributes).insert(added.name@, added.value@);
    assert forall|name: Seq<char>| attribute_map(longer).dom().contains(name)
        <==> expected.dom().contains(name) by {
        if has_name(longer, name) {
            let i = position_of(longer, name);
            if i < attributes.len() {
                assert(attributes[i].name@ == name);
            }
        }
        if has_name(attributes, name) {
            let i = position_of(attributes, name);
            assert(longer[i].name@ == name);
        }
        if name == added.name@ {
            assert(longer[attributes.len() as int].name@ == name);
        }
    }
    assert forall|name: Seq<char>| attribute_map(longer).dom().contains(name) implies
        attribute_map(longer)[name] == expected[name] by {
        let i = position_of(longer, name);
        lemma_attribute_at(longer, i);
        if i < attributes.len() {
            assert(attributes[i] == longer[i]);
            lemma_attribute_at(attributes, i);
        }
    }
    assert(attribute_map(longer) =~= expected);
}

/// Replacing the value of the attribute at place `i` replaces its entry in the map.
pub proof fn lemma_attribute_map_update(attributes: Seq<Attribute>, i: int, changed: Attribute)
    requires
        distinct_names(attributes),
        0 <= i < attributes.len(),
        changed.name@ == attributes[i].name@,
    ensures
        distinct_names(attributes.update(i, changed)),
        attribute_map(attributes.update(i, changed)) == attribute_map(attributes).insert(
            changed.name@,
            changed.value@,
        ),
{
    let after = attributes.update(i, changed);
    assert forall|a: int, b: int| 0 <= a < b < after.len() implies after[a].name@
        != after[b].name@ by {
        assert(attributes[a].name@ != attributes[b].name@);
    }
    let expected = attribute_map(attributes).insert(changed.name@, changed.value@);
    assert forall|name: Seq<char>| attribute_map(after).dom().contains(name)
        <==> expected.dom().contains(name) by {
        if has_name(after, name) {
            let k = position_of(after, name);
            assert(attributes[k].name@ == name);
        }
        if has_name(attributes, name) {
            let k = position_of(attributes, name);
            assert(after[k].name@ == name);
        }
        if name == changed.name@ {
            assert(after[i].name@ == name);
        }
    }
    assert forall|name: Seq<char>| attribute_map(after).dom().contains(name) implies
        attribute_map(after)[name] == expected[name] by {
        let k = position_of(after, name);
        lemma_attribute_at(after, k);
        if k != i {
            assert(attributes[k] == after[k]);
            lemma_attribute_at(attributes, k);
        }
    }
    assert(attribute_map(after) =~= expected);
}

/// The string that the attribute called `name` holds; `None` where the item has no
/// such attribute or its value is no string.
pub open spec fn string_attribute(item: ItemView, name: Seq<char>) -> Option<Seq<char>> {
    if item.dom().contains(name) {
        match item[name] {
            AttributeValueView::S(held) => Some(held),
            _ => None,
        }
    } else {
        None
    }
}

/// A raw item: a finite map from attribute names to values.
#[derive(Debug)]
pub struct Item {
    attributes: Vec<Attribute>,
}

impl View for Item {
    type V = ItemView;

    closed spec fn view(&self) -> ItemView {
        attribute_map(self.attributes@)
    }
}

impl Item {
    #[verifier::type_invariant]
    spec fn names_are_distinct(&self) -> bool {
        distinct_names(self.attributes@)
    }

    /// The item without attributes.
    pub fn new() -> (item: Item)
        ensures
            item@ == ItemView::empty(),
    {
        let item = Item { attributes: Vec::new() };
        assert(item@ =~= ItemView::empty());
        item
    }

    /// The number of attributes.
    pub fn len(&self) -> (n: usize)
        ensures
            self@.dom().finite(),
            n == self@.dom().len(),
    {
        proof {
            use_type_invariant(self);
            lemma_attribute_map_size(self.attributes@);
        }
        self.attributes.len()
    }

    /// Whether the item has no attributes.
    pub fn is_empty(&self) -> (empty: bool)
        ensures
            empty == (self@ == ItemView::empty()),
    {
        proof {
            use_type_invariant(self);
            lemma_attribute_map_size(self.attributes@);
            if self.attributes@.len() == 0 {
                assert(self@ =~= ItemView::empty());
            }
        }
        self.attributes.len() == 0
    }

    /// The place of the attribute called `name`, if the item has one.
    fn find(&self, name: &String) -> (r: Option<usize>)
        ensures
            match r {
                Some(i) => i < self.attributes@.len() && self.attributes@[i as int].name@ == name@,
                None => !has_name(self.attributes@, name@),
            },
    {
        let mut i: usize = 0;
        while i < self.attributes.len()
            invariant
                i <= self.attributes@.len(),
                forall|k: int| 0 <= k < i ==> self.attributes@[k].name@ != name@,
            decreases self.attributes@.len() - i,
        {
            if self.attributes[i].name == *name {
                return Some(i);
            }
            i += 1;
        }
        None
    }

    /// The value of the attribute called `name`, if the item has one.
    pub fn get(&self, name: &str) -> (r: Option<&AttributeValue>)
        ensures
            match r {
                Some(value) => self@.dom().contains(name@) && self@[name@] == value@,
                None => !self@.dom().contains(name@),
            },
    {
        proof {
            use_type_invariant(self);
        }
        let wanted = name.to_owned();
        match self.find(&wanted) {
            Some(i) => {
                proof {
                    lemma_attribute_at(self.attributes@, i as int);
                }
                Some(&self.attributes[i].value)
            },
            None => None,
        }
    }

    /// The string held by the attribute called `name`, if the item has one and it is a
    /// string.
    pub fn get_string(&self, name: &str) -> (r: Option<&String>)
        ensures
            match r {
                Some(held) => string_attribute(self@, name@) == Some(held@),
                None => string_attribute(self@, name@) is None,
            },
    {
        match self.get(name) {
            Some(value) => value.as_s(),
            None => None,
        }
    }

    /// Sets the attribute called `name` to `value`, whether or not the item had one.
    pub fn insert(&mut self, name: String, value: AttributeValue)
        ensures
            final(self)@ == old(self)@.insert(name@, value@),
    {
        proof {
            use_type_invariant(&*self);
        }
        let attribute = Attribute { name, value };
        let place = self.find(&attribute.name);
        let mut taken = Item { attributes: Vec::new() };
        std::mem::swap(self, &mut taken);
        let mut attributes = taken.attributes;
        match place {
            Some(i) => {
                proof {
                    lemma_attribute_map_update(attributes@, i as int, attribute);
                }
                attributes.set(i, attribute);
            },
            None => {
                proof {
                    lemma_attribute_map_push(attributes@, attribute);
                }
                attributes.push(attribute);
            },
        }
        *self = Item { attributes };
    }

    /// The attributes one by one, each name once.
    pub fn attributes(&self) -> (list: &Vec<Attribute>)
        ensures
            distinct_names(list@),
            attribute_map(list@) == self@,
    {
        proof {
            use_type_invariant(self);
        }
        &self.attributes
    }
}

impl Clone for Item {
    fn clone(&self) -> (r: Self)
        ensures
            r@ == self@,
    {
        proof {
            use_type_invariant(self);
        }
        let mut attributes: Vec<Attribute> = Vec::new();
        let mut i: usize = 0;
        while i < self.attributes.len()
            invariant
                i <= self.attributes@.len(),
                attributes@.len() == i,
                forall|k: int|
                    0 <= k < i ==> attributes@[k].name@ == self.attributes@[k].name@
                        && attributes@[k].value@ == self.attributes@[k].value@,
            decreases self.attributes@.len() - i,
        {
            attributes.push(self.attributes[i].clone());
            i += 1;
        }
        proof {
            lemma_attribute_map_same(self.attributes@, attributes@);
        }
        Item { attributes }
    }
}

/// A list of distinct names stands for a finite map with one entry for each attribute.
pub proof fn lemma_attribute_map_size(attributes: Seq<Attribute>)
    requires
        distinct_names(attributes),
    ensures
        attribute_map(attributes).dom().finite(),
        attribute_map(attributes).dom().len() == attributes.len(),
    decreases attributes.len(),
{
    if attributes.len() == 0 {
        assert(attribute_map(attributes).dom() =~= Set::<Seq<char>>::empty());
    } else {
        let shorter = attributes.drop_last();
        let last = attributes.last();
        assert(distinct_names(shorter)) by {
            assert forall|i: int, j: int| 0 <= i < j < shorter.len() implies shorter[i].name@
                != shorter[j].name@ by {
                assert(attributes[i].name@ != attributes[j].name@);
            }
        }
        assert(!has_name(shorter, last.name@)) by {
            if has_name(shorter, last.name@) {
                let i = position_of(shorter, last.name@);
                assert(attributes[i].name@ != attributes[attributes.len() - 1].name@);
            }
        }
        assert(shorter.push(last) =~= attributes);
        lemma_attribute_map_push(shorter, last);
        lemma_attribute_map_size(shorter);
        assert(attribute_map(attributes).dom() =~= attribute_map(shorter).dom().insert(
            last.name@,
        ));
    }
}

/// Two lists with the same names and values in the same places stand for the same map.
pub proof fn lemma_attribute_map_same(first: Seq<Attribute>, second: Seq<Attribute>)
    requires
        distinct_names(first),
        first.len() == second.len(),
        forall|k: int|
            0 <= k < first.len() ==> first[k].name@ == second[k].name@ && first[k].value@
                == second[k].value@,
    ensures
        distinct_names(second),
        attribute_map(first) == attribute_map(second),
{
    assert forall|i: int, j: int| 0 <= i < j < second.len() implies second[i].name@
        != second[j].name@ by {
        assert(first[i].name@ != first[j].name@);
    }
    assert forall|name: Seq<char>| attribute_map(first).dom().contains(name)
        <==> attribute_map(second).dom().contains(name) by {
        if has_name(first, name) {
            let i = position_of(first, name);
            assert(second[i].name@ == name);
        }
        if has_name(second, name) {
            let i = position_of(second, name);
            assert(first[i].name@ == name);
        }
    }
    assert forall|name: Seq<char>| attribute_map(first).dom().contains(name) implies
        attribute_map(first)[name] == attribute_map(second)[name] by {
        let i = position_of(first, name);
        lemma_attribute_at(first, i);
        lemma_attribute_at(second, i);
    }
    assert(attribute_map(first) =~= attribute_map(second));
}

/// What a query returned: the matching items, in the store's order.
#[derive(Debug)]
pub struct ResultSet {
    pub items: Vec<Item>,
}

impl View for ResultSet {
    type V = Seq<ItemView>;

    open spec fn view(&self) -> Seq<ItemView> {
        Seq::new(self.items@.len(), |i: int| self.items@[i]@)
    }
}

impl ResultSet {
    /// The result set of a query that matched nothing.
    pub fn empty() -> (results: ResultSet)
        ensures
            results@ == Seq::<ItemView>::empty(),
    {
        let results = ResultSet { items: Vec::new() };
        assert(results@ =~= Seq::<ItemView>::empty());
        results
    }
}

} // verus!
