//! The head of an HTTP message as the pipeline reads it: version, headers,
//! and the rules that inject headers on the way in or out.

use vstd::prelude::*;
use vstd::string::StringSliceAdditionalSpecFns;
use vstd::utf8::encode_utf8;

verus! {

/// The protocol version of a request.
#[derive(Clone, Copy, PartialEq, Eq, Structural, Debug)]
pub enum HttpVersion {
    Http09,
    Http10,
    Http11,
    H2,
    H3,
}

/// One header. The name is held in lower case.
#[derive(Debug, PartialEq, Eq)]
pub struct Header {
    pub name: Vec<u8>,
    pub value: Vec<u8>,
}

/// The lower-case form of an ASCII letter; any other byte is itself.
pub open spec fn lower(b: u8) -> u8 {
    if 65 <= b <= 90 {
        (b + 32) as u8
    } else {
        b
    }
}

/// A header name in the form under which it is stored and looked up.
pub open spec fn lowered(name: Seq<u8>) -> Seq<u8> {
    Seq::new(name.len(), |i: int| lower(name[i]))
}

/// No two entries carry the same name.
pub open spec fn names_distinct(entries: Seq<Header>) -> bool {
    forall|i: int, j: int|
        0 <= i < j < entries.len() ==> (#[trigger] entries[i]).name@ != (#[trigger] entries[j]).name@
}

/// Every stored name is in lower case.
pub open spec fn names_lowered(entries: Seq<Header>) -> bool {
    forall|i: int| 0 <= i < entries.len() ==> lowered((#[trigger] entries[i]).name@) == entries[i].name@
}

/// The mapping from name to value that a list of entries stands for.
pub open spec fn as_map(entries: Seq<Header>) -> Map<Seq<u8>, Seq<u8>>
    decreases entries.len(),
{
    if entries.len() == 0 {
        Map::empty()
    } else {
        as_map(entries.drop_last()).insert(entries.last().name@, entries.last().value@)
    }
}

proof fn lemma_as_map_absent(entries: Seq<Header>, key: Seq<u8>)
    requires
        forall|i: int| 0 <= i < entries.len() ==> (#[trigger] entries[i]).name@ != key,
    ensures
        !as_map(entries).contains_key(key),
    decreases entries.len(),
{
    if entries.len() > 0 {
        lemma_as_map_absent(entries.drop_last(), key);
    }
}

proof fn lemma_as_map_at(entries: Seq<Header>, i: int)
    requires
        names_distinct(entries),
        0 <= i < entries.len(),
    ensures
        as_map(entries).contains_key(entries[i].name@),
        as_map(entries)[entries[i].name@] == entries[i].value@,
    decreases entries.len(),
{
    if i < entries.len() - 1 {
        lemma_as_map_at(entries.drop_last(), i);
    }
}

proof fn lemma_as_map_push(entries: Seq<Header>, entry: Header)
    ensures
        as_map(entries.push(entry)) == as_map(entries).insert(entry.name@, entry.value@),
{
    assert(entries.push(entry).drop_last() =~= entries);
}

proof fn lemma_as_map_update(entries: Seq<Header>, i: int, entry: Header)
    requires
        names_distinct(entries),
        0 <= i < entries.len(),
        entry.name@ == entries[i].name@,
    ensures
        names_distinct(entries.update(i, entry)),
        as_map(entries.update(i, entry)) == as_map(entries).insert(entry.name@, entry.value@),
    decreases entries.len(),
{
    let updated = entries.update(i, entry);
    let front = entries.drop_last();
    if i == entries.len() - 1 {
        assert(updated.drop_last() =~= front);
    } else {
        lemma_as_map_update(front, i, entry);
        assert(updated.drop_last() =~= front.update(i, entry));
    }
}

proof fn lemma_as_map_same(a: Seq<Header>, b: Seq<Header>)
    requires
        a.len() == b.len(),
        forall|j: int|
            0 <= j < a.len() ==> (#[trigger] a[j]).name@ == b[j].name@ && a[j].value@ == b[j].value@,
    ensures
        as_map(a) == as_map(b),
    decreases a.len(),
{
    if a.len() > 0 {
        lemma_as_map_same(a.drop_last(), b.drop_last());
    }
}

/// Whether two byte strings are the same.
pub fn bytes_eq(a: &[u8], b: &[u8]) -> (same: bool)
    ensures
        same == (a@ == b@),
{
    if a.len() != b.len() {
        return false;
    }
    let mut i: usize = 0;
    while i < a.len()
        invariant
            a.len() == b.len(),
            i <= a.len(),
            forall|j: int| 0 <= j < i ==> a@[j] == b@[j],
        decreases a.len() - i,
    {
        if a[i] != b[i] {
            return false;
        }
        i += 1;
    }
    assert(a@ =~= b@);
    true
}

/// Whether `text` begins with `prefix`.
pub fn starts_with(text: &[u8], prefix: &[u8]) -> (yes: bool)
    ensures
        yes == (prefix@.len() <= text@.len() && text@.subrange(0, prefix@.len() as int)
            == prefix@),
{
    if prefix.len() > text.len() {
        return false;
    }
    let mut i: usize = 0;
    while i < prefix.len()
        invariant
            prefix.len() <= text.len(),
            i <= prefix.len(),
            forall|j: int| 0 <= j < i ==> text@[j] == prefix@[j],
        decreases prefix.len() - i,
    {
        if text[i] != prefix[i] {
            return false;
        }
        i += 1;
    }
    assert(text@.subrange(0, prefix@.len() as int) =~= prefix@);
    true
}

/// A copy of `bytes`.
pub fn copy_bytes(bytes: &[u8]) -> (copy: Vec<u8>)
    ensures
        copy@ == bytes@,
{
    let mut copy: Vec<u8> = Vec::new();
    let mut i: usize = 0;
    while i < bytes.len()
        invariant
            i <= bytes.len(),
            copy@ == bytes@.subrange(0, i as int),
        decreases bytes.len() - i,
    {
        copy.push(bytes[i]);
        i += 1;
    }
    copy
}

/// The stored form of a header name: ASCII letters in lower case, every
/// other byte kept.
pub fn lower_name(name: &[u8]) -> (key: Vec<u8>)
    ensures
        key@ == lowered(name@),
{
    let mut key: Vec<u8> = Vec::new();
    let mut i: usize = 0;
    while i < name.len()
        invariant
            i <= name.len(),
            key@ == lowered(name@).subrange(0, i as int),
        decreases name.len() - i,
    {
        let b: u8 = name[i];
        let low: u8 = if 65 <= b && b <= 90 {
            b + 32
        } else {
            b
        };
        key.push(low);
        i += 1;
    }
    key
}

/// Lowering a name twice is lowering it once.
pub proof fn lemma_lowered_twice(name: Seq<u8>)
    ensures
        lowered(lowered(name)) == lowered(name),
{
}

/// The headers of one message: at most one value for a name, names compared
/// without regard to ASCII case.
#[derive(Debug)]
pub struct Headers {
    entries: Vec<Header>,
}

impl View for Headers {
    type V = Map<Seq<u8>, Seq<u8>>;

    /// From lower-case name to value.
    closed spec fn view(&self) -> Map<Seq<u8>, Seq<u8>> {
        as_map(self.entries@)
    }
}

impl Headers {
    #[verifier::type_invariant]
    spec fn well_formed(&self) -> bool {
        names_distinct(self.entries@) && names_lowered(self.entries@)
    }

    /// The key under which `name` is stored.
    pub open spec fn key_of(name: Seq<char>) -> Seq<u8> {
        lowered(encode_utf8(name))
    }

    /// No headers.
    pub fn new() -> (headers: Headers)
        ensures
            headers@ == Map::<Seq<u8>, Seq<u8>>::empty(),
    {
        Headers { entries: Vec::new() }
    }

    fn position(&self, key: &Vec<u8>) -> (found: Option<usize>)
        ensures
            match found {
                Some(i) => i < self.entries@.len() && self.entries@[i as int].name@ == key@,
                None => forall|j: int|
                    0 <= j < self.entries@.len() ==> (#[trigger] self.entries@[j]).name@ != key@,
            },
    {
        let mut i: usize = 0;
        while i < self.entries.len()
            invariant
                i <= self.entries@.len(),
                forall|j: int| 0 <= j < i ==> (#[trigger] self.entries@[j]).name@ != key@,
            decreases self.entries@.len() - i,
        {
            if bytes_eq(self.entries[i].name.as_slice(), key.as_slice()) {
                return Some(i);
            }
            i += 1;
        }
        None
    }

    /// The value stored for `name`, if there is one.
    pub fn get(&self, name: &str) -> (value: Option<&Vec<u8>>)
        ensures
            match value {
                Some(v) => self@.contains_key(Self::key_of(name@)) && v@ == self@[Self::key_of(name@)],
                None => !self@.contains_key(Self::key_of(name@)),
            },
    {
        let key = lower_name(name.as_bytes());
        proof {
            use_type_invariant(self);
        }
        match self.position(&key) {
            Some(i) => {
                proof {
                    lemma_as_map_at(self.entries@, i as int);
                }
                Some(&self.entries[i].value)
            },
            None => {
                proof {
                    lemma_as_map_absent(self.entries@, key@);
                }
                None
            },
        }
    }

    /// Whether a value is stored for `name`.
    pub fn contains(&self, name: &str) -> (present: bool)
        ensures
            present == self@.contains_key(Self::key_of(name@)),
    {
        self.get(name).is_some()
    }

    /// Stores `value` for `name`, in place of any value that was there.
    pub fn set(&mut self, name: &str, value: &[u8])
        ensures
            final(self)@ == old(self)@.insert(Self::key_of(name@), value@),
    {
        let key = lower_name(name.as_bytes());
        let held = copy_bytes(value);
        proof {
            use_type_invariant(&*self);
            lemma_lowered_twice(name.spec_bytes());
        }
        let entry = Header { name: key, value: held };
        let found = self.position(&entry.name);
        let mut entries: Vec<Header> = Vec::new();
        std::mem::swap(&mut self.entries, &mut entries);
        match found {
            Some(i) => {
                proof {
                    lemma_as_map_update(entries@, i as int, entry);
                }
                entries.set(i, entry);
            },
            None => {
                proof {
                    lemma_as_map_push(entries@, entry);
                }
                entries.push(entry);
            },
        }
        std::mem::swap(&mut self.entries, &mut entries);
    }

    /// All headers, each once, in no particular order.
    pub fn to_vec(&self) -> (list: Vec<Header>)
        ensures
            names_distinct(list@),
            as_map(list@) == self@,
    {
        let mut list: Vec<Header> = Vec::new();
        let mut i: usize = 0;
        while i < self.entries.len()
            invariant
                i <= self.entries@.len(),
                list@.len() == i,
                forall|j: int|
                    0 <= j < i ==> (#[trigger] list@[j]).name@ == self.entries@[j].name@
                        && list@[j].value@ == self.entries@[j].value@,
            decreases self.entries@.len() - i,
        {
            let entry = &self.entries[i];
            list.push(
                Header {
                    name: copy_bytes(entry.name.as_slice()),
                    value: copy_bytes(entry.value.as_slice()),
                },
            );
            i += 1;
        }
        proof {
            use_type_invariant(self);
            lemma_as_map_same(list@, self.entries@);
        }
        list
    }

    /// Stores `value` for `name` unless a value is there already. Says
    /// whether it stored.
    pub fn set_if_absent(&mut self, name: &str, value: &[u8]) -> (stored: bool)
        ensures
            stored == !old(self)@.contains_key(Self::key_of(name@)),
            final(self)@ == if stored {
                old(self)@.insert(Self::key_of(name@), value@)
            } else {
                old(self)@
            },
    {
        if self.contains(name) {
            false
        } else {
            self.set(name, value);
            true
        }
    }
}

/// An inbound request: its head as plain values, and a body that the
/// pipeline hands on without looking into it.
#[derive(Debug)]
pub struct HttpRequest<B> {
    pub method: String,
    pub uri: String,
    pub version: HttpVersion,
    pub headers: Headers,
    pub body: B,
}

/// A response: status, headers, and a body that layers leave alone.
#[derive(Debug)]
pub struct HttpResponse<B> {
    pub status: u16,
    pub headers: Headers,
    pub body: B,
}

/// When a header rule writes.
#[derive(Clone, Copy, PartialEq, Eq, Structural, Debug)]
pub enum InsertMode {
    /// Always, replacing a value that is there.
    Override,
    /// Only where the message has no value for the name.
    IfNotPresent,
}

/// A header to inject into every message that passes.
#[derive(Debug)]
pub struct HeaderRule {
    name: String,
    value: Vec<u8>,
    mode: InsertMode,
}

impl HeaderRule {
    /// The header's key.
    pub closed spec fn key(&self) -> Seq<u8> {
        Headers::key_of(self.name@)
    }

    /// The value that the rule writes.
    pub closed spec fn value(&self) -> Seq<u8> {
        self.value@
    }

    /// When the rule writes.
    pub closed spec fn mode(&self) -> InsertMode {
        self.mode
    }

    /// The headers of a message after the rule has passed over `headers`.
    pub open spec fn applied(&self, headers: Map<Seq<u8>, Seq<u8>>) -> Map<Seq<u8>, Seq<u8>> {
        match self.mode() {
            InsertMode::Override => headers.insert(self.key(), self.value()),
            InsertMode::IfNotPresent => if headers.contains_key(self.key()) {
                headers
            } else {
                headers.insert(self.key(), self.value())
            },
        }
    }

    /// A rule that sets `name` to `value` whatever the message holds.
    pub fn overriding(name: &str, value: &[u8]) -> (rule: HeaderRule)
        ensures
            rule.key() == Headers::key_of(name@),
            rule.value() == value@,
            rule.mode() == InsertMode::Override,
    {
        HeaderRule { name: name.to_owned(), value: copy_bytes(value), mode: InsertMode::Override }
    }

    /// A rule that sets `name` to `value` only where the message has no value
    /// for it.
    pub fn if_not_present(name: &str, value: &[u8]) -> (rule: HeaderRule)
        ensures
            rule.key() == Headers::key_of(name@),
            rule.value() == value@,
            rule.mode() == InsertMode::IfNotPresent,
    {
        HeaderRule {
            name: name.to_owned(),
            value: copy_bytes(value),
            mode: InsertMode::IfNotPresent,
        }
    }

    /// A second rule that writes the same header in the same way.
    pub fn duplicate(&self) -> (rule: HeaderRule)
        ensures
            rule.key() == self.key(),
            rule.value() == self.value(),
            rule.mode() == self.mode(),
    {
        HeaderRule {
            name: self.name.clone(),
            value: copy_bytes(self.value.as_slice()),
            mode: self.mode,
        }
    }

    /// Passes the rule over `headers`.
    pub fn apply(&self, headers: &mut Headers)
        ensures
            final(headers)@ == self.applied(old(headers)@),
    {
        match self.mode {
            InsertMode::Override => {
                headers.set(self.name.as_str(), self.value.as_slice());
            },
            InsertMode::IfNotPresent => {
                let _ = headers.set_if_absent(self.name.as_str(), self.value.as_slice());
            },
        }
    }

    /// Passes the rule over a request on its way in. Only the headers can
    /// change.
    pub fn on_request<B>(&self, request: HttpRequest<B>) -> (out: HttpRequest<B>)
        ensures
            out.headers@ == self.applied(request.headers@),
            out.method == request.method,
            out.uri == request.uri,
            out.version == request.version,
            out.body == request.body,
    {
        let mut out = request;
        self.apply(&mut out.headers);
        out
    }

    /// Passes the rule over a response on its way out. Only the headers can
    /// change.
    pub fn on_response<B>(&self, response: HttpResponse<B>) -> (out: HttpResponse<B>)
        ensures
            out.headers@ == self.applied(response.headers@),
            out.status == response.status,
            out.body == response.body,
    {
        let mut out = response;
        self.apply(&mut out.headers);
        out
    }
}

/// A second pass of a rule changes nothing.
pub proof fn lemma_rule_idempotent(rule: HeaderRule, headers: Map<Seq<u8>, Seq<u8>>)
    ensures
        rule.applied(rule.applied(headers)) == rule.applied(headers),
{
}

/// After either kind of rule the header is present. An overriding rule
/// leaves its own value there; a conditional rule leaves the value that was
/// there, and its own only where there was none.
pub proof fn lemma_rule_result(rule: HeaderRule, headers: Map<Seq<u8>, Seq<u8>>)
    ensures
        rule.applied(headers).contains_key(rule.key()),
        rule.mode() == InsertMode::Override ==> rule.applied(headers)[rule.key()] == rule.value(),
        rule.mode() == InsertMode::IfNotPresent && headers.contains_key(rule.key())
            ==> rule.applied(headers) == headers,
        rule.mode() == InsertMode::IfNotPresent && !headers.contains_key(rule.key())
            ==> rule.applied(headers)[rule.key()] == rule.value(),
        forall|k: Seq<u8>|
            k != rule.key() ==> (rule.applied(headers).contains_key(k) <==> headers.contains_key(
                k,
            )),
        forall|k: Seq<u8>|
            k != rule.key() && headers.contains_key(k) ==> rule.applied(headers)[k] == headers[k],
{
}

} // verus!
