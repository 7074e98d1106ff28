//! Cypher queries: text, parameters and telemetry attributes, and the text with the
//! parameters spliced in as literals.
use crate::text::{
    alphanumeric, bool_text, bool_word, chars_of, find_from, first_index, is_alphanumeric,
    lemma_first_index, signed_decimal, signed_decimal_text, text_between,
};
use vstd::prelude::*;

verus! {

/// Bounded telemetry value: a fixed word, or the depth of a web-of-trust traversal.
/// Wider types would let request data become metric dimensions.
#[derive(Clone, Copy, Debug, PartialEq, Eq)]
pub enum TelemetryValue {
    Str(&'static str),
    Int(u8),
}

/// What a telemetry value stands for.
#[verifier::ext_equal]
pub enum TelemetryView {
    Str(Seq<char>),
    Int(u8),
}

impl View for TelemetryValue {
    type V = TelemetryView;

    open spec fn view(&self) -> TelemetryView {
        match self {
            TelemetryValue::Str(s) => TelemetryView::Str(s@),
            TelemetryValue::Int(n) => TelemetryView::Int(*n),
        }
    }
}

/// A parameter value.
#[derive(Debug)]
pub enum BoltType {
    Text(String),
    Integer(i64),
    /// A double, held as the shortest decimal text that reads back as the same double.
    Float(String),
    Boolean(bool),
    Null,
    List(Vec<BoltType>),
    Entries(BoltMap),
    /// A value of another kind of the protocol, held as its debug text.
    Other(String),
}

/// Parameters by name, in the order in which the names were first put.
#[derive(Debug)]
pub struct BoltMap {
    pub value: Vec<(String, BoltType)>,
}

/// What a parameter value stands for.
#[verifier::ext_equal]
pub enum BoltView {
    Text(Seq<char>),
    Integer(int),
    Float(Seq<char>),
    Boolean(bool),
    Null,
    List(Seq<BoltView>),
    Entries(Seq<(Seq<char>, BoltView)>),
    Other(Seq<char>),
}

/// What a parameter value stands for.
pub open spec fn bolt_view(v: BoltType) -> BoltView
    decreases v,
{
    match v {
        BoltType::Text(s) => BoltView::Text(s@),
        BoltType::Integer(i) => BoltView::Integer(i as int),
        BoltType::Float(s) => BoltView::Float(s@),
        BoltType::Boolean(b) => BoltView::Boolean(b),
        BoltType::Null => BoltView::Null,
        BoltType::List(l) => BoltView::List(list_view(l@)),
        BoltType::Entries(m) => BoltView::Entries(entries_view(m.value@)),
        BoltType::Other(s) => BoltView::Other(s@),
    }
}

/// What the values of a list stand for.
pub open spec fn list_view(l: Seq<BoltType>) -> Seq<BoltView>
    decreases l,
{
    if l.len() == 0 {
        Seq::empty()
    } else {
        list_view(l.drop_last()).push(bolt_view(l.last()))
    }
}

/// What the entries of a map stand for.
pub open spec fn entries_view(l: Seq<(String, BoltType)>) -> Seq<(Seq<char>, BoltView)>
    decreases l,
{
    if l.len() == 0 {
        Seq::empty()
    } else {
        entries_view(l.drop_last()).push((l.last().0@, bolt_view(l.last().1)))
    }
}

/// A view of a list of entries has the entries' views, one for one.
pub proof fn lemma_entries_view(l: Seq<(String, BoltType)>)
    ensures
        entries_view(l).len() == l.len(),
        forall|i: int|
            0 <= i < l.len() ==> #[trigger] entries_view(l)[i] == (l[i].0@, bolt_view(l[i].1)),
    decreases l.len(),
{
    if l.len() > 0 {
        lemma_entries_view(l.drop_last());
    }
}

/// A view of a list of values has the values' views, one for one.
pub proof fn lemma_list_view(l: Seq<BoltType>)
    ensures
        list_view(l).len() == l.len(),
        forall|i: int| 0 <= i < l.len() ==> #[trigger] list_view(l)[i] == bolt_view(l[i]),
    decreases l.len(),
{
    if l.len() > 0 {
        lemma_list_view(l.drop_last());
    }
}

impl View for BoltType {
    type V = BoltView;

    open spec fn view(&self) -> BoltView {
        bolt_view(*self)
    }
}

impl BoltType {
    /// A text value.
    pub fn text(s: &str) -> (r: BoltType)
        ensures
            r@ == BoltView::Text(s@),
    {
        BoltType::Text(s.to_owned())
    }

    /// A list of text values.
    pub fn texts(l: &[String]) -> (r: BoltType)
        ensures
            r@ == BoltView::List(texts_view(l@)),
    {
        let mut out: Vec<BoltType> = Vec::new();
        let mut i: usize = 0;
        assert(texts_view(l@.take(0)) == Seq::<BoltView>::empty());
        while i < l.len()
            invariant
                i <= l.len(),
                list_view(out@) == texts_view(l@.take(i as int)),
            decreases l.len() - i,
        {
            let item = BoltType::text(l[i].as_str());
            let ghost before = out@;
            out.push(item);
            assert(out@.drop_last() == before);
            assert(texts_view(l@.take(i + 1)) == texts_view(l@.take(i as int)).push(
                BoltView::Text(l@[i as int]@),
            ));
            i = i + 1;
        }
        assert(l@.take(i as int) == l@);
        BoltType::List(out)
    }

    /// A list of text values.
    pub fn strs(l: &[&str]) -> (r: BoltType)
        ensures
            r@ == BoltView::List(strs_view(l@)),
    {
        let mut out: Vec<BoltType> = Vec::new();
        let mut i: usize = 0;
        assert(strs_view(l@.take(0)) == Seq::<BoltView>::empty());
        while i < l.len()
            invariant
                i <= l.len(),
                list_view(out@) == strs_view(l@.take(i as int)),
            decreases l.len() - i,
        {
            let item = BoltType::text(l[i]);
            let ghost before = out@;
            out.push(item);
            assert(out@.drop_last() == before);
            assert(strs_view(l@.take(i + 1)) == strs_view(l@.take(i as int)).push(
                BoltView::Text(l@[i as int]@),
            ));
            i = i + 1;
        }
        assert(l@.take(i as int) == l@);
        BoltType::List(out)
    }

    /// A list of lists of text values.
    pub fn rows(l: &[&[&str]]) -> (r: BoltType)
        ensures
            r@ == BoltView::List(rows_view(l@)),
    {
        let mut out: Vec<BoltType> = Vec::new();
        let mut i: usize = 0;
        assert(rows_view(l@.take(0)) == Seq::<BoltView>::empty());
        while i < l.len()
            invariant
                i <= l.len(),
                list_view(out@) == rows_view(l@.take(i as int)),
            decreases l.len() - i,
        {
            let item = BoltType::strs(l[i]);
            let ghost before = out@;
            out.push(item);
            assert(out@.drop_last() == before);
            assert(rows_view(l@.take(i + 1)) == rows_view(l@.take(i as int)).push(
                BoltView::List(strs_view(l@[i as int]@)),
            ));
            i = i + 1;
        }
        assert(l@.take(i as int) == l@);
        BoltType::List(out)
    }

    /// A text value, or null where there is none.
    pub fn text_or_null(s: Option<&str>) -> (r: BoltType)
        ensures
            r@ == text_or_null_view(s),
    {
        match s {
            Some(t) => BoltType::text(t),
            None => BoltType::Null,
        }
    }
}

/// The view of a text value, or null where there is none.
pub open spec fn text_or_null_view(s: Option<&str>) -> BoltView {
    match s {
        Some(t) => BoltView::Text(t@),
        None => BoltView::Null,
    }
}

/// The views of a list of text values.
pub open spec fn strs_view(l: Seq<&str>) -> Seq<BoltView> {
    l.map_values(|s: &str| BoltView::Text(s@))
}

/// The views of a list of lists of text values.
pub open spec fn rows_view(l: Seq<&[&str]>) -> Seq<BoltView> {
    l.map_values(|row: &[&str]| BoltView::List(strs_view(row@)))
}

/// The views of a list of text values.
pub open spec fn texts_view(l: Seq<String>) -> Seq<BoltView> {
    l.map_values(|s: String| BoltView::Text(s@))
}

/// The parameters that a list of entries binds: a later entry for a name wins.
pub open spec fn bound(entries: Seq<(Seq<char>, BoltView)>) -> Map<Seq<char>, BoltView>
    decreases entries.len(),
{
    if entries.len() == 0 {
        Map::empty()
    } else {
        bound(entries.drop_last()).insert(entries.last().0, entries.last().1)
    }
}

/// Whether no name occurs twice.
pub open spec fn distinct_names(entries: Seq<(Seq<char>, BoltView)>) -> bool {
    forall|i: int, j: int| 0 <= i < j < entries.len() ==> entries[i].0 != entries[j].0
}

/// A name is bound by an entry that no later entry overrides, and by nothing else.
proof fn lemma_bound(entries: Seq<(Seq<char>, BoltView)>, name: Seq<char>, k: int)
    requires
        -1 <= k < entries.len(),
        k >= 0 ==> entries[k].0 == name,
        forall|j: int| k < j < entries.len() ==> entries[j].0 != name,
    ensures
        bound(entries).dom().contains(name) <==> k >= 0,
        k >= 0 ==> bound(entries)[name] == entries[k].1,
    decreases entries.len(),
{
    if entries.len() > 0 && k < entries.len() - 1 {
        lemma_bound(entries.drop_last(), name, k);
        assert(entries.last().0 != name);
    }
}

/// Overriding the last entry for a name rebinds that name alone.
proof fn lemma_rebind(entries: Seq<(Seq<char>, BoltView)>, k: int, value: BoltView)
    requires
        0 <= k < entries.len(),
        forall|j: int| k < j < entries.len() ==> entries[j].0 != entries[k].0,
    ensures
        bound(entries.update(k, (entries[k].0, value))) == bound(entries).insert(
            entries[k].0,
            value,
        ),
    decreases entries.len(),
{
    let changed = entries.update(k, (entries[k].0, value));
    if k == entries.len() - 1 {
        assert(changed.drop_last() == entries.drop_last());
        assert(bound(changed) =~= bound(entries).insert(entries[k].0, value));
    } else {
        let rest = entries.drop_last();
        lemma_rebind(rest, k, value);
        assert(changed.drop_last() == rest.update(k, (rest[k].0, value)));
        assert(entries.last().0 != entries[k].0);
        assert(bound(changed) =~= bound(entries).insert(entries[k].0, value));
    }
}

impl BoltMap {
    /// The entries, in order.
    pub open spec fn entries(&self) -> Seq<(Seq<char>, BoltView)> {
        entries_view(self.value@)
    }

    /// The parameters that the entries bind.
    pub open spec fn bindings(&self) -> Map<Seq<char>, BoltView> {
        bound(self.entries())
    }

    /// No parameters.
    pub fn new() -> (r: BoltMap)
        ensures
            r.entries() == Seq::<(Seq<char>, BoltView)>::empty(),
            r.bindings() == Map::<Seq<char>, BoltView>::empty(),
            distinct_names(r.entries()),
    {
        BoltMap { value: Vec::new() }
    }

    /// Index of the last entry for `key`.
    fn position(&self, key: &str) -> (r: Option<usize>)
        ensures
            match r {
                Some(k) => k < self.value@.len() && self.value@[k as int].0@ == key@ && forall|j: int|
                    k < j < self.value@.len() ==> #[trigger] self.value@[j].0@ != key@,
                None => forall|j: int|
                    0 <= j < self.value@.len() ==> #[trigger] self.value@[j].0@ != key@,
            },
    {
        let mut i: usize = self.value.len();
        while i > 0
            invariant
                i <= self.value@.len(),
                forall|j: int| i <= j < self.value@.len() ==> #[trigger] self.value@[j].0@ != key@,
            decreases i,
        {
            i = i - 1;
            if *self.value[i].0.as_str() == *key {
                return Some(i);
            }
        }
        None
    }

    /// Binds `key` to `value`, in place of what it was bound to.
    pub fn put(&mut self, key: &str, value: BoltType)
        ensures
            final(self).bindings() == old(self).bindings().insert(key@, value@),
            distinct_names(old(self).entries()) ==> distinct_names(final(self).entries()),
    {
        proof {
            lemma_entries_view(old(self).value@);
        }
        let ghost before = self.value@;
        let ghost bound_value = value@;
        match self.position(key) {
            Some(k) => {
                self.value.set(k, (key.to_owned(), value));
                proof {
                    lemma_entries_view(before);
                    lemma_entries_view(self.value@);
                    let entries = entries_view(before);
                    assert forall|j: int| k < j < entries.len() implies entries[j].0
                        != entries[k as int].0 by {
                        assert(before[j].0@ != key@);
                    }
                    lemma_rebind(entries, k as int, bound_value);
                    assert(entries_view(self.value@) =~= entries.update(
                        k as int,
                        (key@, bound_value),
                    ));
                }
            },
            None => {
                self.value.push((key.to_owned(), value));
                proof {
                    lemma_entries_view(self.value@);
                    assert(self.value@.drop_last() == before);
                    assert(entries_view(self.value@) == entries_view(before).push(
                        (key@, bound_value),
                    ));
                    assert(entries_view(self.value@).drop_last() == entries_view(before));
                    assert forall|i: int| 0 <= i < before.len() implies entries_view(before)[i].0
                        != key@ by {
                        assert(before[i].0@ != key@);
                    }
                }
            },
        }
    }

    /// What `key` is bound to.
    pub fn get(&self, key: &str) -> (r: Option<&BoltType>)
        ensures
            match r {
                Some(v) => self.bindings().dom().contains(key@) && self.bindings()[key@] == v@,
                None => !self.bindings().dom().contains(key@),
            },
    {
        let at = self.position(key);
        proof {
            lemma_entries_view(self.value@);
            let k: int = match at {
                Some(i) => i as int,
                None => -1int,
            };
            assert forall|j: int| k < j < self.entries().len() implies self.entries()[j].0
                != key@ by {
                assert(self.value@[j].0@ != key@);
            }
            lemma_bound(self.entries(), key@, k);
        }
        match at {
            Some(i) => Some(&self.value[i].1),
            None => None,
        }
    }
}

/// What a query says: its label, its text, the parameters that it binds and its
/// telemetry attributes.
#[verifier::ext_equal]
pub struct QueryView {
    pub label: Seq<char>,
    pub cypher: Seq<char>,
    pub params: Map<Seq<char>, BoltView>,
    pub telemetry: Seq<(Seq<char>, TelemetryView)>,
}

impl QueryView {
    /// A query without parameters and attributes.
    pub open spec fn plain(label: Seq<char>, cypher: Seq<char>) -> QueryView {
        QueryView { label, cypher, params: Map::empty(), telemetry: Seq::empty() }
    }

    /// The query with `key` bound to `value`.
    pub open spec fn param(self, key: Seq<char>, value: BoltView) -> QueryView {
        QueryView { params: self.params.insert(key, value), ..self }
    }

    /// The query with one more telemetry attribute.
    pub open spec fn attr(self, key: Seq<char>, value: TelemetryView) -> QueryView {
        QueryView { telemetry: self.telemetry.push((key, value)), ..self }
    }

    /// The query with one more telemetry attribute where there is a value.
    pub open spec fn attr_opt(self, key: Seq<char>, value: Option<u8>) -> QueryView {
        match value {
            Some(n) => self.attr(key, TelemetryView::Int(n)),
            None => self,
        }
    }
}

/// Query builder with a stable telemetry label and bounded attributes.
#[derive(Debug)]
pub struct Query {
    label: &'static str,
    cypher: String,
    params: BoltMap,
    /// Telemetry-only attributes; never sent to the database.
    telemetry_attrs: Vec<(&'static str, TelemetryValue)>,
}

/// The views of telemetry attributes.
pub open spec fn attrs_view(attrs: Seq<(&'static str, TelemetryValue)>) -> Seq<
    (Seq<char>, TelemetryView),
> {
    attrs.map_values(|a: (&'static str, TelemetryValue)| (a.0@, a.1@))
}

impl View for Query {
    type V = QueryView;

    closed spec fn view(&self) -> QueryView {
        QueryView {
            label: self.label@,
            cypher: self.cypher@,
            params: self.params.bindings(),
            telemetry: attrs_view(self.telemetry_attrs@),
        }
    }
}

impl Query {
    /// A query with a label and a text, without parameters and attributes.
    pub fn new(label: &'static str, cypher: &str) -> (r: Query)
        ensures
            r@ == QueryView::plain(label@, cypher@),
    {
        let r = Query {
            label,
            cypher: cypher.to_owned(),
            params: BoltMap::new(),
            telemetry_attrs: Vec::new(),
        };
        assert(r@.telemetry =~= Seq::<(Seq<char>, TelemetryView)>::empty());
        r
    }

    /// The label that telemetry files the query under.
    pub fn label(&self) -> (r: &'static str)
        ensures
            r@ == self@.label,
    {
        self.label
    }

    /// The text of the query.
    pub fn cypher(&self) -> (r: &str)
        ensures
            r@ == self@.cypher,
    {
        self.cypher.as_str()
    }

    /// The parameters of the query.
    pub fn bindings(&self) -> (r: &BoltMap)
        ensures
            r.bindings() == self@.params,
    {
        &self.params
    }

    /// Attaches a telemetry dimension. Never sent to the database.
    pub fn telemetry_attr(self, key: &'static str, value: TelemetryValue) -> (r: Query)
        ensures
            r@ == self@.attr(key@, value@),
    {
        let mut r = self;
        let ghost before = r.telemetry_attrs@;
        r.telemetry_attrs.push((key, value));
        assert(attrs_view(r.telemetry_attrs@) =~= attrs_view(before).push((key@, value@)));
        r
    }

    /// Attaches a telemetry dimension where there is a value.
    pub fn telemetry_attr_opt(self, key: &'static str, value: Option<u8>) -> (r: Query)
        ensures
            r@ == self@.attr_opt(key@, value),
    {
        match value {
            Some(n) => self.telemetry_attr(key, TelemetryValue::Int(n)),
            None => self,
        }
    }

    /// The telemetry attributes, in the order in which they were attached.
    pub fn telemetry_attrs(&self) -> (r: &[(&'static str, TelemetryValue)])
        ensures
            attrs_view(r@) == self@.telemetry,
    {
        self.telemetry_attrs.as_slice()
    }

    /// Binds the parameter `key`.
    pub fn param(self, key: &str, value: BoltType) -> (r: Query)
        ensures
            r@ == self@.param(key@, value@),
    {
        let mut r = self;
        r.params.put(key, value);
        r
    }

    /// Binds the given parameters one after another.
    pub fn params(self, input: Vec<(String, BoltType)>) -> (r: Query)
        ensures
            r@ == (QueryView {
                params: rebound(self@.params, entries_view(input@)),
                ..self@
            }),
    {
        let mut r = self;
        let ghost all = input@;
        proof {
            lemma_entries_view(all);
            assert(entries_view(all).take(0) == Seq::<(Seq<char>, BoltView)>::empty());
        }
        for entry in it: input
            invariant
                it.seq() == all,
                entries_view(all).len() == all.len(),
                forall|i: int|
                    0 <= i < all.len() ==> #[trigger] entries_view(all)[i] == (
                        all[i].0@,
                        bolt_view(all[i].1),
                    ),
                r@ == (QueryView {
                    params: rebound(self@.params, entries_view(all).take(it.index())),
                    ..self@
                }),
        {
            let (k, v) = entry;
            r.params.put(k.as_str(), v);
            proof {
                let entries = entries_view(all);
                let done = it.index();
                assert(entries.take(done + 1).drop_last() == entries.take(done));
                assert(entries.take(done + 1).last() == (k@, v@));
            }
        }
        assert(entries_view(all).take(all.len() as int) == entries_view(all));
        r
    }

    /// The text with `$param` placeholders replaced by their literal values, ready to
    /// copy into a database browser.
    pub fn to_cypher_populated(&self) -> (r: String)
        ensures
            r@ == populated(self@.cypher, self@.params),
    {
        populate_cypher(self.cypher.as_str(), &self.params)
    }
}

/// `params` with each of `entries` bound in turn.
pub open spec fn rebound(
    params: Map<Seq<char>, BoltView>,
    entries: Seq<(Seq<char>, BoltView)>,
) -> Map<Seq<char>, BoltView>
    decreases entries.len(),
{
    if entries.len() == 0 {
        params
    } else {
        rebound(params, entries.drop_last()).insert(entries.last().0, entries.last().1)
    }
}

/// Characters of a parameter's name.
pub open spec fn name_char(c: char) -> bool {
    c == '_' || alphanumeric(c)
}

/// Length of the longest name that `s` begins with.
pub open spec fn name_len(s: Seq<char>) -> nat
    decreases s.len(),
{
    if s.len() == 0 || !name_char(s[0]) {
        0
    } else {
        1 + name_len(s.drop_first())
    }
}

/// The longest name lies within the text, is made of name characters, and no name
/// character follows it.
pub proof fn lemma_name_len(s: Seq<char>)
    ensures
        name_len(s) <= s.len(),
        forall|i: int| 0 <= i < name_len(s) ==> name_char(#[trigger] s[i]),
        name_len(s) < s.len() ==> !name_char(s[name_len(s) as int]),
    decreases s.len(),
{
    if s.len() > 0 && name_char(s[0]) {
        let t = s.drop_first();
        lemma_name_len(t);
        assert forall|i: int| 0 <= i < name_len(s) implies name_char(#[trigger] s[i]) by {
            if i > 0 {
                assert(t[i - 1] == s[i]);
            }
        }
    }
}

/// A run of name characters that no name character follows is the longest name.
pub proof fn lemma_name_len_is(s: Seq<char>, n: nat)
    requires
        n <= s.len(),
        forall|i: int| 0 <= i < n ==> name_char(#[trigger] s[i]),
        n < s.len() ==> !name_char(s[n as int]),
    ensures
        name_len(s) == n,
{
    lemma_name_len(s);
    if name_len(s) < n {
        assert(name_char(s[name_len(s) as int]));
    } else if n < name_len(s) {
        assert(name_char(s[n as int]));
    }
}

/// What stands in the populated text for the placeholder `$name`: the literal of the
/// value that the name is bound to; the placeholder itself where it is bound to none.
pub open spec fn substitute(name: Seq<char>, params: Map<Seq<char>, BoltView>) -> Seq<char> {
    if name.len() > 0 && params.dom().contains(name) {
        literal(params[name])
    } else {
        seq!['$'] + name
    }
}

/// `cypher` with each placeholder, a `$` and the longest name after it, replaced.
/// What is put in is not looked at again.
pub open spec fn populated(cypher: Seq<char>, params: Map<Seq<char>, BoltView>) -> Seq<char>
    decreases cypher.len(),
{
    let i = first_index(cypher, '$');
    if i >= cypher.len() {
        cypher
    } else {
        proof {
            lemma_first_index(cypher, '$');
            lemma_name_len(cypher.skip(i + 1));
        }
        let rest = cypher.skip(i + 1);
        let n = name_len(rest) as int;
        cypher.take(i) + substitute(rest.take(n), params) + populated(rest.skip(n), params)
    }
}

/// Replaces `$param` placeholders in `cypher` with literal values from `params`.
pub fn populate_cypher(cypher: &str, params: &BoltMap) -> (r: String)
    ensures
        r@ == populated(cypher@, params.bindings()),
{
    let chars = chars_of(cypher);
    let mut out = String::new();
    let mut from: usize = 0;
    let ghost all = cypher@;
    let ghost bindings = params.bindings();
    assert(all.skip(0) == all);
    assert(out@ + populated(all, bindings) == populated(all, bindings));
    loop
        invariant
            from <= chars.len(),
            chars@ == all,
            bindings == params.bindings(),
            all == cypher@,
            out@ + populated(all.skip(from as int), bindings) == populated(all, bindings),
        decreases chars.len() - from,
    {
        let i: usize = find_from(&chars, from, '$');
        let ghost tail = all.skip(from as int);
        let ghost before = out@;
        let plain = text_between(&chars, from, i);
        out.append(plain.as_str());
        if i == chars.len() {
            assert(plain@ == tail);
            return out;
        }
        let mut end: usize = i + 1;
        while end < chars.len() && (chars[end] == '_' || is_alphanumeric(chars[end]))
            invariant
                i < end <= chars.len(),
                forall|j: int| i < j < end ==> name_char(#[trigger] chars@[j]),
            ensures
                i < end <= chars.len(),
                forall|j: int| i < j < end ==> name_char(#[trigger] chars@[j]),
                end < chars.len() ==> !name_char(chars@[end as int]),
            decreases chars.len() - end,
        {
            end = end + 1;
        }
        let name = text_between(&chars, i + 1, end);
        proof {
            let rest = tail.skip(i - from + 1);
            assert(rest == all.skip(i + 1));
            assert forall|j: int| 0 <= j < end - i - 1 implies name_char(#[trigger] rest[j]) by {
                assert(chars@[i + 1 + j] == rest[j]);
            }
            lemma_name_len_is(rest, (end - i - 1) as nat);
            assert(name@ == rest.take(end - i - 1));
            assert(rest.skip(end - i - 1) == all.skip(end as int));
            assert(plain@ == tail.take(i - from));
        }
        let found = if end > i + 1 {
            params.get(name.as_str())
        } else {
            None
        };
        match found {
            Some(value) => {
                let text = bolt_to_cypher_literal(value);
                out.append(text.as_str());
                assert(out@ == before + plain@ + substitute(name@, bindings));
            },
            None => {
                out.push('$');
                out.append(name.as_str());
                assert(out@ =~= before + plain@ + substitute(name@, bindings));
            },
        }
        assert(out@ + populated(all.skip(end as int), bindings) =~= before + (plain@ + substitute(
            name@,
            bindings,
        ) + populated(all.skip(end as int), bindings)));
        from = end;
    }
}

/// How a character stands inside a quoted literal.
pub open spec fn escape_char(c: char) -> Seq<char> {
    if c == '\\' {
        seq!['\\', '\\']
    } else if c == '\'' {
        seq!['\\', '\'']
    } else if c == '\n' {
        seq!['\\', 'n']
    } else if c == '\r' {
        seq!['\\', 'r']
    } else if c == '\t' {
        seq!['\\', 't']
    } else {
        seq![c]
    }
}

/// The characters of `s`, each as it stands inside a quoted literal.
pub open spec fn escaped(s: Seq<char>) -> Seq<char>
    decreases s.len(),
{
    if s.len() == 0 {
        Seq::empty()
    } else {
        escaped(s.drop_last()) + escape_char(s.last())
    }
}

/// The Cypher literal of a value.
pub open spec fn literal(v: BoltView) -> Seq<char>
    decreases v,
{
    match v {
        BoltView::Text(s) => seq!['\''] + escaped(s) + seq!['\''],
        BoltView::Integer(i) => signed_decimal(i),
        BoltView::Float(s) => s,
        BoltView::Boolean(b) => bool_word(b),
        BoltView::Null => "null"@,
        BoltView::List(l) => seq!['['] + list_literals(l) + seq![']'],
        BoltView::Entries(m) => seq!['{'] + entry_literals(m) + seq!['}'],
        BoltView::Other(s) => s,
    }
}

/// The literals of the values of a list, separated by a comma and a space.
pub open spec fn list_literals(l: Seq<BoltView>) -> Seq<char>
    decreases l,
{
    if l.len() == 0 {
        Seq::empty()
    } else if l.len() == 1 {
        literal(l[0])
    } else {
        list_literals(l.drop_last()) + ", "@ + literal(l.last())
    }
}

/// `name: literal` of the entries of a map, separated by a comma and a space.
pub open spec fn entry_literals(m: Seq<(Seq<char>, BoltView)>) -> Seq<char>
    decreases m,
{
    if m.len() == 0 {
        Seq::empty()
    } else if m.len() == 1 {
        m[0].0 + ": "@ + literal(m[0].1)
    } else {
        entry_literals(m.drop_last()) + ", "@ + (m.last().0 + ": "@ + literal(m.last().1))
    }
}

/// Appends a text as it stands inside a quoted literal.
fn append_escaped(out: &mut String, s: &str)
    ensures
        final(out)@ == old(out)@ + escaped(s@),
{
    let chars = chars_of(s);
    let ghost start = out@;
    let mut i: usize = 0;
    assert(chars@.take(0) == Seq::<char>::empty());
    while i < chars.len()
        invariant
            i <= chars.len(),
            out@ == start + escaped(chars@.take(i as int)),
        decreases chars.len() - i,
    {
        let c = chars[i];
        let ghost before = out@;
        if c == '\\' {
            out.push('\\');
            out.push('\\');
        } else if c == '\'' {
            out.push('\\');
            out.push('\'');
        } else if c == '\n' {
            out.push('\\');
            out.push('n');
        } else if c == '\r' {
            out.push('\\');
            out.push('r');
        } else if c == '\t' {
            out.push('\\');
            out.push('t');
        } else {
            out.push(c);
        }
        assert(out@ =~= before + escape_char(c));
        assert(chars@.take(i + 1).drop_last() == chars@.take(i as int));
        assert(out@ =~= start + escaped(chars@.take(i + 1)));
        i = i + 1;
    }
    assert(chars@.take(i as int) == s@);
}

/// Formats a value as a Cypher literal.
pub fn bolt_to_cypher_literal(val: &BoltType) -> (r: String)
    ensures
        r@ == literal(val@),
    decreases val,
{
    match val {
        BoltType::Text(s) => {
            let mut out = String::new();
            out.push('\'');
            append_escaped(&mut out, s.as_str());
            out.push('\'');
            assert(out@ =~= literal(val@));
            out
        },
        BoltType::Integer(i) => signed_decimal_text(*i),
        BoltType::Float(s) => s.clone(),
        BoltType::Boolean(b) => bool_text(*b).to_owned(),
        BoltType::Null => "null".to_owned(),
        BoltType::List(list) => {
            let mut out = String::new();
            out.push('[');
            let mut i: usize = 0;
            let ghost all = list_view(list@);
            proof {
                lemma_list_view(list@);
                assert(all.take(0) == Seq::<BoltView>::empty());
                assert(out@ =~= seq!['['] + list_literals(all.take(0)));
            }
            while i < list.len()
                invariant
                    i <= list.len(),
                    val@ == BoltView::List(all),
                    all.len() == list@.len(),
                    forall|j: int| 0 <= j < list@.len() ==> #[trigger] all[j] == bolt_view(list@[j]),
                    decreases_to!(val => list@),
                    out@ == seq!['['] + list_literals(all.take(i as int)),
                decreases list.len() - i,
            {
                assert(decreases_to!(val => list@[i as int]));
                if i > 0 {
                    out.append(", ");
                }
                let item = bolt_to_cypher_literal(&list[i]);
                out.append(item.as_str());
                assert(all.take(i + 1).drop_last() == all.take(i as int));
                assert(all.take(i + 1).last() == all[i as int]);
                assert(out@ =~= seq!['['] + list_literals(all.take(i + 1)));
                i = i + 1;
            }
            assert(all.take(i as int) == all);
            out.push(']');
            assert(out@ =~= literal(val@));
            out
        },
        BoltType::Entries(map) => {
            let mut out = String::new();
            out.push('{');
            let mut i: usize = 0;
            let ghost all = entries_view(map.value@);
            proof {
                lemma_entries_view(map.value@);
                assert(all.take(0) == Seq::<(Seq<char>, BoltView)>::empty());
                assert(out@ =~= seq!['{'] + entry_literals(all.take(0)));
            }
            while i < map.value.len()
                invariant
                    i <= map.value.len(),
                    val@ == BoltView::Entries(all),
                    all.len() == map.value@.len(),
                    forall|j: int|
                        0 <= j < map.value@.len() ==> #[trigger] all[j] == (
                            map.value@[j].0@,
                            bolt_view(map.value@[j].1),
                        ),
                    decreases_to!(val => map.value@),
                    out@ == seq!['{'] + entry_literals(all.take(i as int)),
                decreases map.value.len() - i,
            {
                assert(decreases_to!(val => map.value@[i as int]));
                assert(decreases_to!(val => map.value@[i as int].1));
                if i > 0 {
                    out.append(", ");
                }
                out.append(map.value[i].0.as_str());
                out.append(": ");
                let item = bolt_to_cypher_literal(&map.value[i].1);
                out.append(item.as_str());
                assert(all.take(i + 1).drop_last() == all.take(i as int));
                assert(all.take(i + 1).last() == all[i as int]);
                assert(out@ =~= seq!['{'] + entry_literals(all.take(i + 1)));
                i = i + 1;
            }
            assert(all.take(i as int) == all);
            out.push('}');
            assert(out@ =~= literal(val@));
            out
        },
        BoltType::Other(s) => s.clone(),
    }
}

/// A text without a `$` is populated as it is, whatever the parameters.
pub proof fn law_no_placeholder_no_change(
    cypher: Seq<char>,
    params: Map<Seq<char>, BoltView>,
)
    requires
        !cypher.contains('$'),
    ensures
        populated(cypher, params) == cypher,
{
    lemma_first_index(cypher, '$');
    if first_index(cypher, '$') < cypher.len() {
        assert(cypher.contains(cypher[first_index(cypher, '$')]));
    }
}

/// Text before the first `$` is kept, and the rest is populated on its own: what is put
/// in for one placeholder never becomes part of another.
pub proof fn law_populate_from_left(
    plain: Seq<char>,
    name: Seq<char>,
    rest: Seq<char>,
    params: Map<Seq<char>, BoltView>,
)
    requires
        !plain.contains('$'),
        forall|i: int| 0 <= i < name.len() ==> name_char(#[trigger] name[i]),
        rest.len() > 0 ==> !name_char(rest[0]),
    ensures
        populated(plain + seq!['$'] + name + rest, params) == plain + substitute(name, params)
            + populated(rest, params),
{
    let all = plain + seq!['$'] + name + rest;
    assert forall|i: int| 0 <= i < plain.len() implies all[i] != '$' by {
        assert(all[i] == plain[i]);
        assert(plain.contains(plain[i]));
    }
    crate::text::lemma_first_index_is(all, '$', plain.len() as int);
    let tail = all.skip(plain.len() as int + 1);
    assert(tail == name + rest);
    assert forall|i: int| 0 <= i < name.len() implies name_char(#[trigger] tail[i]) by {
        assert(tail[i] == name[i]);
    }
    lemma_name_len_is(tail, name.len());
    assert(tail.take(name.len() as int) == name);
    assert(tail.skip(name.len() as int) == rest);
    assert(all.take(plain.len() as int) == plain);
}

/// A parameter that no placeholder names makes no difference: two sets of parameters
/// that agree on every name of the text populate it alike.
pub proof fn law_unused_params_ignored(
    cypher: Seq<char>,
    params: Map<Seq<char>, BoltView>,
    others: Map<Seq<char>, BoltView>,
)
    requires
        forall|name: Seq<char>| #[trigger]
            placeholder_in(name, cypher) ==> (params.dom().contains(name)
                <==> others.dom().contains(name)) && (params.dom().contains(name) ==> params[name]
                == others[name]),
    ensures
        populated(cypher, params) == populated(cypher, others),
    decreases cypher.len(),
{
    lemma_first_index(cypher, '$');
    let i = first_index(cypher, '$');
    if i < cypher.len() {
        let rest = cypher.skip(i + 1);
        lemma_name_len(rest);
        let n = name_len(rest) as int;
        let name = rest.take(n);
        assert(cypher.subrange(i + 1, i + 1 + n) == name);
        assert(placeholder_at(name, cypher, i));
        assert(placeholder_in(name, cypher));
        let tail = rest.skip(n);
        assert forall|other: Seq<char>| #[trigger] placeholder_in(other, tail) implies (
        params.dom().contains(other) <==> others.dom().contains(other)) && (params.dom().contains(
            other,
        ) ==> params[other] == others[other]) by {
            let k = choose|k: int| placeholder_at(other, tail, k);
            let shift = i + 1 + n;
            assert(tail == cypher.skip(shift));
            assert(tail.subrange(k + 1, k + 1 + other.len()) == cypher.subrange(
                shift + k + 1,
                shift + k + 1 + other.len(),
            ));
            assert(placeholder_at(other, cypher, shift + k));
            assert(placeholder_in(other, cypher));
        }
        law_unused_params_ignored(tail, params, others);
    }
}

/// Whether the text holds `$name` at `k`.
pub open spec fn placeholder_at(name: Seq<char>, cypher: Seq<char>, k: int) -> bool {
    &&& 0 <= k
    &&& k + 1 + name.len() <= cypher.len()
    &&& cypher[k] == '$'
    &&& cypher.subrange(k + 1, k + 1 + name.len()) == name
}

/// Whether the text holds `$name` somewhere.
pub open spec fn placeholder_in(name: Seq<char>, cypher: Seq<char>) -> bool {
    exists|k: int| placeholder_at(name, cypher, k)
}

/// Reads back a text that stands inside a quoted literal: a backslash and the character
/// after it stand for one character.
pub open spec fn unescaped(s: Seq<char>) -> Seq<char>
    decreases s.len(),
{
    if s.len() == 0 {
        Seq::empty()
    } else if s[0] == '\\' && s.len() > 1 {
        seq![
            if s[1] == 'n' {
                '\n'
            } else if s[1] == 'r' {
                '\r'
            } else if s[1] == 't' {
                '\t'
            } else {
                s[1]
            },
        ] + unescaped(s.skip(2))
    } else {
        seq![s[0]] + unescaped(s.skip(1))
    }
}

/// The escapes of two texts one after another are the escapes of the whole.
proof fn lemma_escaped_add(a: Seq<char>, b: Seq<char>)
    ensures
        escaped(a + b) == escaped(a) + escaped(b),
    decreases b.len(),
{
    if b.len() == 0 {
        assert(a + b == a);
        assert(escaped(a) + escaped(b) == escaped(a));
    } else {
        lemma_escaped_add(a, b.drop_last());
        assert((a + b).drop_last() == a + b.drop_last());
        assert((a + b).last() == b.last());
        assert(escaped(a + b) =~= escaped(a) + escaped(b));
    }
}

/// Escaping loses nothing: the text of a quoted literal reads back as the value.
pub proof fn law_escape_reads_back(s: Seq<char>)
    ensures
        unescaped(escaped(s)) == s,
    decreases s.len(),
{
    if s.len() > 0 {
        let head = seq![s[0]];
        let tail = s.skip(1);
        assert(s == head + tail);
        lemma_escaped_add(head, tail);
        assert(head.drop_last() == Seq::<char>::empty());
        assert(escaped(head.drop_last()) == Seq::<char>::empty());
        assert(head.last() == s[0]);
        assert(escaped(head) == escaped(head.drop_last()) + escape_char(head.last()));
        assert(escaped(head) =~= escape_char(s[0]));
        law_escape_reads_back(tail);
        let e = escaped(s);
        let k = escape_char(s[0]).len() as int;
        assert(e == escape_char(s[0]) + escaped(tail));
        assert(e.skip(k) == escaped(tail));
        assert(unescaped(e) =~= s);
    }
}

/// No line break, carriage return or tab stands inside a quoted literal.
pub proof fn law_escape_is_one_line(s: Seq<char>)
    ensures
        forall|i: int|
            0 <= i < escaped(s).len() ==> {
                &&& #[trigger] escaped(s)[i] != '\n'
                &&& escaped(s)[i] != '\r'
                &&& escaped(s)[i] != '\t'
            },
    decreases s.len(),
{
    if s.len() > 0 {
        let head = escaped(s.drop_last());
        law_escape_is_one_line(s.drop_last());
        assert forall|i: int| 0 <= i < escaped(s).len() implies {
            &&& #[trigger] escaped(s)[i] != '\n'
            &&& escaped(s)[i] != '\r'
            &&& escaped(s)[i] != '\t'
        } by {
            if i < head.len() {
                assert(escaped(s)[i] == head[i]);
            } else {
                assert(escaped(s)[i] == escape_char(s.last())[i - head.len()]);
            }
        }
    }
}

/// Telemetry attributes change neither the text nor the parameters of a query.
pub proof fn law_telemetry_is_not_sent(q: QueryView, key: Seq<char>, value: TelemetryView)
    ensures
        q.attr(key, value).cypher == q.cypher,
        q.attr(key, value).params == q.params,
        q.attr(key, value).telemetry == q.telemetry.push((key, value)),
{
}

/// A placeholder stands for the literal of what its name is bound to, a name that is bound to nothing
/// stays as it is, and so does a dollar sign without a name.
pub proof fn law_only_bound_names_are_replaced(
    name: Seq<char>,
    value: BoltView,
    params: Map<Seq<char>, BoltView>,
)
    ensures
        name.len() > 0 ==> substitute(name, params.insert(name, value)) == literal(value),
        !params.dom().contains(name) ==> substitute(name, params) == seq!['$'] + name,
        substitute(Seq::empty(), params) == seq!['$'],
{
    assert(seq!['$'] + Seq::<char>::empty() =~= seq!['$']);
}

} // verus!
