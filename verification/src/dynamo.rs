//! The customer table: the query that looks a customer up by name, the items
//! it returns, and the address read from them.
use vstd::prelude::*;

verus! {

/// The table that holds the customers.
pub const TABLE_NAME: &'static str = "customers";

/// The secondary index on the customers' names.
pub const NAME_INDEX: &'static str = "name_index";

/// An attribute value of an item, as far as the address lookup reads it: a
/// string, or any other kind of value.
#[derive(Debug)]
pub enum AttributeValue {
    S(String),
    Other,
}

/// The plain value of an attribute.
pub enum AttributeView {
    S(Seq<char>),
    Other,
}

impl View for AttributeValue {
    type V = AttributeView;

    open spec fn view(&self) -> AttributeView {
        match self {
            AttributeValue::S(s) => AttributeView::S(s@),
            AttributeValue::Other => AttributeView::Other,
        }
    }
}

impl AttributeValue {
    /// The string held by a string attribute; the attribute itself otherwise.
    pub fn as_s(&self) -> (r: Result<&String, &AttributeValue>)
        ensures
            match self@ {
                AttributeView::S(s) => r matches Ok(t) && t@ == s,
                AttributeView::Other => r matches Err(v) && v@ == self@,
            },
    {
        match self {
            AttributeValue::S(s) => Ok(s),
            AttributeValue::Other => Err(self),
        }
    }
}

/// The keys of a list of entries are pairwise distinct.
pub open spec fn keys_distinct(e: Seq<(String, AttributeValue)>) -> bool {
    forall|i: int, j: int| 0 <= i < j < e.len() ==> e[i].0@ != e[j].0@
}

/// The map that a list of entries with distinct keys stands for.
pub open spec fn entries_map(e: Seq<(String, AttributeValue)>) -> Map<Seq<char>, AttributeView>
    decreases e.len(),
{
    if e.len() == 0 {
        Map::empty()
    } else {
        entries_map(e.drop_last()).insert(e.last().0@, e.last().1@)
    }
}

proof fn lemma_entries_map_at(e: Seq<(String, AttributeValue)>, i: int)
    requires
        keys_distinct(e),
        0 <= i < e.len(),
    ensures
        entries_map(e).contains_key(e[i].0@),
        entries_map(e)[e[i].0@] == e[i].1@,
    decreases e.len(),
{
    if i < e.len() - 1 {
        let d = e.drop_last();
        assert(keys_distinct(d));
        assert(d[i] == e[i]);
        lemma_entries_map_at(d, i);
        assert(e[i].0@ != e.last().0@);
    }
}

proof fn lemma_entries_map_absent(e: Seq<(String, AttributeValue)>, k: Seq<char>)
    requires
        forall|i: int| 0 <= i < e.len() ==> e[i].0@ != k,
    ensures
        !entries_map(e).contains_key(k),
    decreases e.len(),
{
    if e.len() > 0 {
        let d = e.drop_last();
        assert forall|i: int| 0 <= i < d.len() implies d[i].0@ != k by {
            assert(d[i] == e[i]);
        }
        lemma_entries_map_absent(d, k);
        assert(e.last() == e[e.len() - 1]);
    }
}

proof fn lemma_entries_map_keys(e: Seq<(String, AttributeValue)>, k: Seq<char>)
    requires
        entries_map(e).contains_key(k),
    ensures
        exists|i: int| 0 <= i < e.len() && e[i].0@ == k,
{
    if !(exists|i: int| 0 <= i < e.len() && e[i].0@ == k) {
        lemma_entries_map_absent(e, k);
    }
}

/// One item of a query result: attribute names mapped to values, each name at
/// most once. The entries are a list without repeated names rather than a
/// `HashMap`, whose vstd specification needs a key model that `String` keys
/// are not given.
#[derive(Debug)]
pub struct Item {
    entries: Vec<(String, AttributeValue)>,
}

impl View for Item {
    type V = Map<Seq<char>, AttributeView>;

    closed spec fn view(&self) -> Map<Seq<char>, AttributeView> {
        entries_map(self.entries@)
    }
}

impl Item {
    #[verifier::type_invariant]
    spec fn wf(self) -> bool {
        keys_distinct(self.entries@)
    }

    /// An item without attributes.
    pub fn new() -> (item: Item)
        ensures
            item@ == Map::<Seq<char>, AttributeView>::empty(),
    {
        Item { entries: Vec::new() }
    }

    /// The position of the entry named `key`, if there is one.
    fn position(&self, key: &String) -> (r: Option<usize>)
        requires
            keys_distinct(self.entries@),
        ensures
            match r {
                Some(i) => i < self.entries@.len() && self.entries@[i as int].0@ == key@,
                None => forall|i: int| 0 <= i < self.entries@.len() ==> self.entries@[i].0@ != key@,
            },
    {
        let n = self.entries.len();
        let mut i: usize = 0;
        while i < n
            invariant
                n == self.entries@.len(),
                i <= n,
                forall|j: int| 0 <= j < i ==> self.entries@[j].0@ != key@,
            decreases n - i,
        {
            if self.entries[i].0 == *key {
                return Some(i);
            }
            i = i + 1;
        }
        None
    }

    /// The value of the attribute named `key`.
    pub fn get(&self, key: &String) -> (r: Option<&AttributeValue>)
        ensures
            match r {
                Some(v) => self@.contains_key(key@) && self@[key@] == v@,
                None => !self@.contains_key(key@),
            },
    {
        proof {
            use_type_invariant(self);
        }
        match self.position(key) {
            Some(i) => {
                proof {
                    lemma_entries_map_at(self.entries@, i as int);
                }
                Some(&self.entries[i].1)
            },
            None => {
                proof {
                    lemma_entries_map_absent(self.entries@, key@);
                }
                None
            },
        }
    }

    /// Sets the attribute named `key` to `value`, replacing an earlier value.
    pub fn insert(&mut self, key: String, value: AttributeValue)
        ensures
            final(self)@ == old(self)@.insert(key@, value@),
    {
        proof {
            use_type_invariant(&*self);
        }
        let ghost before = self.entries@;
        let found = self.position(&key);
        let mut entries: Vec<(String, AttributeValue)> = Vec::new();
        std::mem::swap(&mut entries, &mut self.entries);
        assert(entries@ == before);
        let ghost k = key@;
        let ghost v = value@;
        match found {
            Some(i) => {
                entries.set(i, (key, value));
                let ghost after = entries@;
                assert(after == before.update(i as int, after[i as int]));
                assert(keys_distinct(after)) by {
                    assert forall|a: int, b: int| 0 <= a < b < after.len() implies after[a].0@
                        != after[b].0@ by {
                        if a != i && b != i {
                            assert(after[a] == before[a] && after[b] == before[b]);
                        } else if a == i {
                            assert(after[b] == before[b]);
                        } else {
                            assert(after[a] == before[a]);
                        }
                    }
                }
                assert(entries_map(after) =~= entries_map(before).insert(k, v)) by {
                    assert forall|q: Seq<char>|
                        #![trigger entries_map(after).contains_key(q)]
                        entries_map(after).contains_key(q) <==> entries_map(before).insert(
                            k,
                            v,
                        ).contains_key(q) by {
                        if entries_map(after).contains_key(q) {
                            lemma_entries_map_keys(after, q);
                            let j = choose|j: int| 0 <= j < after.len() && after[j].0@ == q;
                            if j != i {
                                assert(after[j] == before[j]);
                                lemma_entries_map_at(before, j);
                            }
                        }
                        if entries_map(before).contains_key(q) && q != k {
                            lemma_entries_map_keys(before, q);
                            let j = choose|j: int| 0 <= j < before.len() && before[j].0@ == q;
                            assert(j != i);
                            assert(after[j] == before[j]);
                            lemma_entries_map_at(after, j);
                        }
                        lemma_entries_map_at(after, i as int);
                    }
                    assert forall|q: Seq<char>|
                        #![trigger entries_map(after)[q]]
                        entries_map(after).contains_key(q) implies entries_map(after)[q]
                        == entries_map(before).insert(k, v)[q] by {
                        lemma_entries_map_keys(after, q);
                        let j = choose|j: int| 0 <= j < after.len() && after[j].0@ == q;
                        lemma_entries_map_at(after, j);
                        if j != i {
                            assert(after[j] == before[j]);
                            lemma_entries_map_at(before, j);
                        }
                    }
                }
            },
            None => {
                entries.push((key, value));
                let ghost after = entries@;
                assert(after.drop_last() =~= before);
                assert(keys_distinct(after)) by {
                    assert forall|a: int, b: int| 0 <= a < b < after.len() implies after[a].0@
                        != after[b].0@ by {
                        assert(after[a] == before[a]);
                        if b < before.len() {
                            assert(after[b] == before[b]);
                        }
                    }
                }
            },
        }
        self.entries = entries;
    }
}

/// The value that stands for a customer's name in the query.
pub open spec fn name_value(person_name: Seq<char>) -> AttributeView {
    AttributeView::S(person_name)
}

/// The query that looks a customer up by name: on `table_name`, through the
/// name index, the condition `#nm = :name` with `#nm` standing for the
/// attribute `name` and `:name` for the customer's name as a string, reading
/// the attribute `address` only.
#[derive(Debug)]
pub struct AddressQuery {
    pub table_name: String,
    pub index_name: String,
    pub key_condition_expression: String,
    pub name_placeholder: String,
    pub name_attribute: String,
    pub value_placeholder: String,
    pub value: AttributeValue,
    pub projection_expression: String,
}

/// Builds the query for the address of `person_name` in `table_name`.
pub fn address_query(table_name: String, person_name: String) -> (q: AddressQuery)
    ensures
        q.table_name@ == table_name@,
        q.index_name@ == NAME_INDEX@,
        q.key_condition_expression@ == "#nm = :name"@,
        q.name_placeholder@ == "#nm"@,
        q.name_attribute@ == "name"@,
        q.value_placeholder@ == ":name"@,
        q.value@ == name_value(person_name@),
        q.value@ == AttributeView::S(person_name@),
        q.projection_expression@ == "address"@,
{
    AddressQuery {
        table_name,
        index_name: String::from_str(NAME_INDEX),
        key_condition_expression: String::from_str("#nm = :name"),
        name_placeholder: String::from_str("#nm"),
        name_attribute: String::from_str("name"),
        value_placeholder: String::from_str(":name"),
        value: AttributeValue::S(person_name),
        projection_expression: String::from_str("address"),
    }
}

/// The address that a query result yields: the string value of the attribute
/// `address` of the first item; the empty text where there are no items, the
/// first item has no such attribute, or its value is not a string.
pub open spec fn first_address(items: Option<Seq<Map<Seq<char>, AttributeView>>>) -> Seq<char> {
    match items {
        Some(v) => if v.len() > 0 && v[0].contains_key("address"@) {
            match v[0]["address"@] {
                AttributeView::S(s) => s,
                AttributeView::Other => Seq::empty(),
            }
        } else {
            Seq::empty()
        },
        None => Seq::empty(),
    }
}

/// The items of a query result, each by its view.
pub open spec fn items_view(items: Option<Vec<Item>>) -> Option<Seq<Map<Seq<char>, AttributeView>>> {
    match items {
        Some(v) => Some(v@.map_values(|it: Item| it@)),
        None => None,
    }
}

/// The name is sent as it is: a string value holding exactly the name.
pub proof fn law_name_value_is_name(person_name: Seq<char>)
    ensures
        name_value(person_name) == AttributeView::S(person_name),
{
}

/// The address is the whole string stored under `address` in the first item,
/// and the empty text in every other case: no result, no item, no such
/// attribute in the first item, or a value that is not a string. Later items
/// are never read.
pub proof fn law_first_address(v: Seq<Map<Seq<char>, AttributeView>>, s: Seq<char>)
    ensures
        v.len() > 0 && v[0].contains_key("address"@) && v[0]["address"@] == AttributeView::S(s)
            ==> first_address(Some(v)) == s,
        v.len() > 0 && v[0].contains_key("address"@) && v[0]["address"@] == AttributeView::S(s)
            ==> first_address(Some(v)).len() == s.len(),
        v.len() == 0 ==> first_address(Some(v)) == Seq::<char>::empty(),
        v.len() > 0 && !v[0].contains_key("address"@) ==> first_address(Some(v)) == Seq::<
            char,
        >::empty(),
        v.len() > 0 && v[0].contains_key("address"@) && v[0]["address"@] is Other ==> first_address(
            Some(v),
        ) == Seq::<char>::empty(),
        v.len() > 0 ==> first_address(Some(v)) == first_address(Some(seq![v[0]])),
        first_address(None) == Seq::<char>::empty(),
{
}

/// Reads the customer's address out of a query result.
pub fn address_from_items(items: Option<Vec<Item>>) -> (address: String)
    ensures
        address@ == first_address(items_view(items)),
        items matches Some(v) ==> (v@.len() > 0 && v@[0]@.contains_key("address"@)
            && v@[0]@["address"@] is S ==> address@ == v@[0]@["address"@]->S_0),
        items matches Some(v) ==> (!(v@.len() > 0 && v@[0]@.contains_key("address"@)
            && v@[0]@["address"@] is S) ==> address@ == Seq::<char>::empty()),
        items is None ==> address@ == Seq::<char>::empty(),
{
    match items {
        Some(v) => {
            if v.len() > 0 {
                let key = String::from_str("address");
                let first = &v[0];
                assert(items_view(Some(v)) == Some(v@.map_values(|it: Item| it@)));
                assert(v@.map_values(|it: Item| it@)[0] == first@);
                match first.get(&key) {
                    Some(attr) => match attr.as_s() {
                        Ok(s) => s.clone(),
                        Err(_) => String::new(),
                    },
                    None => String::new(),
                }
            } else {
                String::new()
            }
        },
        None => String::new(),
    }
}

} // verus!
