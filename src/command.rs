use vstd::prelude::*;
use crate::frame::{encode_frame, fits_frame, frame_bytes};

verus! {

/// Whether no key occurs twice among `fields`.
pub open spec fn keys_unique(fields: Seq<(String, String)>) -> bool {
    forall|i: int, j: int|
        0 <= i < j < fields.len() ==> #[trigger] fields[i].0@ != #[trigger] fields[j].0@
}

/// The value stored under `key`, if any.
pub open spec fn lookup(fields: Seq<(String, String)>, key: Seq<char>) -> Option<Seq<char>> {
    if exists|i: int| 0 <= i < fields.len() && #[trigger] fields[i].0@ == key {
        Some(fields[choose|i: int| 0 <= i < fields.len() && #[trigger] fields[i].0@ == key].1@)
    } else {
        None
    }
}

/// What storing `value` under `key` makes of `fields`: the entry for `key` is
/// replaced in place, or a new one is appended.
pub open spec fn stored(fields: Seq<(String, String)>, key: Seq<char>, value: Seq<char>, r: Seq<(String, String)>) -> bool {
    if exists|i: int| 0 <= i < fields.len() && #[trigger] fields[i].0@ == key {
        let i = choose|i: int| 0 <= i < fields.len() && #[trigger] fields[i].0@ == key;
        r.len() == fields.len() && r[i].0@ == key && r[i].1@ == value
            && forall|j: int| 0 <= j < r.len() && j != i ==> #[trigger] r[j] == fields[j]
    } else {
        r.len() == fields.len() + 1 && r[fields.len() as int].0@ == key
            && r[fields.len() as int].1@ == value
            && forall|j: int| 0 <= j < fields.len() ==> #[trigger] r[j] == fields[j]
    }
}

proof fn lemma_lookup_unique(fields: Seq<(String, String)>, i: int)
    requires
        keys_unique(fields),
        0 <= i < fields.len(),
    ensures
        lookup(fields, fields[i].0@) == Some(fields[i].1@),
{
    let k = fields[i].0@;
    assert(fields[i].0@ == k);
    let c = choose|c: int| 0 <= c < fields.len() && #[trigger] fields[c].0@ == k;
    assert(c == i) by {
        if c < i {
            assert(fields[c].0@ != fields[i].0@);
        } else if c > i {
            assert(fields[i].0@ != fields[c].0@);
        }
    }
}

/// Stores `value` under `key`, keeping the keys unique.
fn store(fields: &mut Vec<(String, String)>, key: String, value: String)
    requires
        keys_unique(old(fields)@),
    ensures
        keys_unique(final(fields)@),
        stored(old(fields)@, key@, value@, final(fields)@),
        lookup(final(fields)@, key@) == Some(value@),
        forall|k: Seq<char>| k != key@ ==> lookup(final(fields)@, k) == lookup(old(fields)@, k),
{
    let ghost f0 = old(fields)@;
    let found = find_key(fields, &key);
    match found {
        Some(i) => {
            proof {
                let c = choose|c: int| 0 <= c < f0.len() && #[trigger] f0[c].0@ == key@;
                assert(c == i as int) by {
                    if c < i {
                        assert(f0[c].0@ != f0[i as int].0@);
                    } else if c > i {
                        assert(f0[i as int].0@ != f0[c].0@);
                    }
                }
            }
            fields.set(i, (key, value));
            proof {
                let f1 = fields@;
                assert(keys_unique(f1)) by {
                    assert forall|a: int, b: int| 0 <= a < b < f1.len() implies #[trigger] f1[a].0@ != #[trigger] f1[b].0@ by {
                        assert(f0[a].0@ != f0[b].0@);
                    }
                }
                lemma_lookup_unique(f1, i as int);
                assert forall|k: Seq<char>| k != key@ implies lookup(f1, k) == lookup(f0, k) by {
                    if exists|j: int| 0 <= j < f0.len() && #[trigger] f0[j].0@ == k {
                        let j = choose|j: int| 0 <= j < f0.len() && #[trigger] f0[j].0@ == k;
                        assert(f1[j] == f0[j]);
                        lemma_lookup_unique(f0, j);
                        lemma_lookup_unique(f1, j);
                    } else {
                        assert forall|j: int| 0 <= j < f1.len() implies #[trigger] f1[j].0@ != k by {
                            if j != i {
                                assert(f1[j] == f0[j]);
                            }
                        }
                    }
                }
            }
        },
        None => {
            fields.push((key, value));
            proof {
                let f1 = fields@;
                let n = f0.len() as int;
                assert(keys_unique(f1)) by {
                    assert forall|a: int, b: int| 0 <= a < b < f1.len() implies #[trigger] f1[a].0@ != #[trigger] f1[b].0@ by {
                        if b < n {
                            assert(f0[a].0@ != f0[b].0@);
                        }
                    }
                }
                lemma_lookup_unique(f1, n);
                assert forall|k: Seq<char>| k != key@ implies lookup(f1, k) == lookup(f0, k) by {
                    if exists|j: int| 0 <= j < f0.len() && #[trigger] f0[j].0@ == k {
                        let j = choose|j: int| 0 <= j < f0.len() && #[trigger] f0[j].0@ == k;
                        lemma_lookup_unique(f0, j);
                        lemma_lookup_unique(f1, j);
                    } else {
                        assert forall|j: int| 0 <= j < f1.len() implies #[trigger] f1[j].0@ != k by {
                            if j < n {
                                assert(f1[j] == f0[j]);
                            }
                        }
                    }
                }
            }
        },
    }
}

/// The position of `key` among `fields`, if it is there.
fn find_key(fields: &Vec<(String, String)>, key: &String) -> (r: Option<usize>)
    ensures
        r matches Some(i) ==> i < fields@.len() && fields@[i as int].0@ == key@,
        r is None ==> forall|j: int| 0 <= j < fields@.len() ==> #[trigger] fields@[j].0@ != key@,
{
    let mut i: usize = 0;
    while i < fields.len()
        invariant
            i <= fields@.len(),
            forall|j: int| 0 <= j < i ==> #[trigger] fields@[j].0@ != key@,
        decreases fields@.len() - i,
    {
        if fields[i].0 == *key {
            return Some(i);
        }
        i = i + 1;
    }
    None
}

/// The value of the last pair in `pairs` whose key is `key`, if any.
pub open spec fn last_value(pairs: Seq<(String, String)>, key: Seq<char>) -> Option<Seq<char>>
    decreases pairs.len(),
{
    if pairs.len() == 0 {
        None
    } else if pairs.last().0@ == key {
        Some(pairs.last().1@)
    } else {
        last_value(pairs.drop_last(), key)
    }
}

/// Collects `pairs` into fields with unique keys; a later pair wins over an earlier one.
fn collect_fields(pairs: Vec<(String, String)>) -> (r: Vec<(String, String)>)
    ensures
        keys_unique(r@),
        forall|k: Seq<char>| lookup(r@, k) == last_value(pairs@, k),
{
    let mut out: Vec<(String, String)> = Vec::new();
    let mut i: usize = 0;
    while i < pairs.len()
        invariant
            i <= pairs@.len(),
            keys_unique(out@),
            forall|k: Seq<char>| lookup(out@, k) == last_value(pairs@.take(i as int), k),
        decreases pairs@.len() - i,
    {
        let key = pairs[i].0.clone();
        let value = pairs[i].1.clone();
        store(&mut out, key, value);
        proof {
            let t = pairs@.take(i + 1 as int);
            assert(t.drop_last() =~= pairs@.take(i as int));
            assert(t.last() == pairs@[i as int]);
        }
        i = i + 1;
    }
    assert(pairs@.take(pairs@.len() as int) =~= pairs@);
    out
}

/// The header of a frame.
#[derive(Debug, Clone)]
pub struct Header {
    /// The operation identifier.
    pub code: u8,
    /// Reserved.
    pub flag: u8,
    /// The tag of the originating client.
    pub language: String,
    /// The identifier that correlates a request with its response.
    pub opaque: usize,
    /// Human-readable status or error text.
    pub remark: Option<String>,
    /// Application-level parameters, with unique keys, in the order they were first stored.
    pub ext_fields: Vec<(String, String)>,
}

impl Header {
    /// The header's fields have unique keys.
    pub open spec fn wf(&self) -> bool {
        keys_unique(self.ext_fields@)
    }

    /// A header with the given fields; of two pairs with one key the later one is kept.
    pub fn new(
        code: u8,
        flag: u8,
        language: String,
        opaque: usize,
        remark: Option<String>,
        ext_fields: Vec<(String, String)>,
    ) -> (r: Header)
        ensures
            r.wf(),
            r.code == code,
            r.flag == flag,
            r.language@ == language@,
            r.opaque == opaque,
            r.remark == remark,
            forall|k: Seq<char>| lookup(r.ext_fields@, k) == last_value(ext_fields@, k),
    {
        Header { code, flag, language, opaque, remark, ext_fields: collect_fields(ext_fields) }
    }
}

/// The source of opaque values: each value it issues is larger than all earlier ones.
pub struct OpaqueGenerator {
    next: usize,
    issued: Ghost<Seq<usize>>,
}

impl OpaqueGenerator {
    /// The value the next call of `issue` returns.
    pub closed spec fn next_value(&self) -> nat {
        self.next as nat
    }

    /// The values issued so far, in order.
    pub closed spec fn issued(&self) -> Seq<usize> {
        self.issued@
    }

    /// Every issued value is below the next one, and they strictly increase.
    pub closed spec fn wf(&self) -> bool {
        &&& forall|i: int, j: int|
            0 <= i < j < self.issued@.len() ==> #[trigger] self.issued@[i] < #[trigger] self.issued@[j]
        &&& forall|i: int| 0 <= i < self.issued@.len() ==> #[trigger] self.issued@[i] < self.next
    }

    /// A generator that starts at 0.
    pub fn new() -> (r: OpaqueGenerator)
        ensures
            r.wf(),
            r.next_value() == 0,
            r.issued() == Seq::<usize>::empty(),
    {
        OpaqueGenerator { next: 0, issued: Ghost(Seq::empty()) }
    }

    /// Whether another value can be issued without overflow.
    pub fn can_issue(&self) -> (r: bool)
        ensures
            r == (self.next_value() < usize::MAX),
    {
        self.next < usize::MAX
    }

    /// Issues the next value.
    pub fn issue(&mut self) -> (r: usize)
        requires
            old(self).wf(),
            old(self).next_value() < usize::MAX,
        ensures
            final(self).wf(),
            r == old(self).next_value(),
            final(self).next_value() == r + 1,
            final(self).issued() == old(self).issued().push(r),
    {
        let r = self.next;
        self.issued = Ghost(self.issued@.push(r));
        self.next = self.next + 1;
        r
    }
}

/// Of the values one generator has issued, each is larger than every earlier one,
/// so no two are equal.
pub proof fn lemma_issued_strictly_increase(g: &OpaqueGenerator)
    requires
        g.wf(),
    ensures
        forall|i: int, j: int|
            0 <= i < j < g.issued().len() ==> #[trigger] g.issued()[i] < #[trigger] g.issued()[j],
        forall|i: int, j: int|
            0 <= i < g.issued().len() && 0 <= j < g.issued().len() && i != j
                ==> g.issued()[i] != g.issued()[j],
{
    assert forall|i: int, j: int|
        0 <= i < g.issued().len() && 0 <= j < g.issued().len() && i != j
            implies g.issued()[i] != g.issued()[j] by {
        if i < j {
            assert(g.issued@[i] < g.issued@[j]);
        } else {
            assert(g.issued@[j] < g.issued@[i]);
        }
    }
}

/// One protocol frame: a header and an optional body.
#[derive(Debug, Clone)]
pub struct Command {
    pub header: Header,
    pub body: Option<Vec<u8>>,
}

/// The bytes a body carries on the wire.
pub open spec fn body_bytes(body: Option<Vec<u8>>) -> Seq<u8> {
    match body {
        Some(b) => b@,
        None => Seq::empty(),
    }
}

impl Command {
    /// The command's header is well formed.
    pub open spec fn wf(&self) -> bool {
        self.header.wf()
    }

    /// The value of the extension field `key`, if any.
    pub open spec fn property(&self, key: Seq<char>) -> Option<Seq<char>> {
        lookup(self.header.ext_fields@, key)
    }

    /// A command with `code`, no extension fields and no body, and the next opaque of `ids`.
    pub fn new(code: u8, ids: &mut OpaqueGenerator) -> (r: Command)
        requires
            old(ids).wf(),
            old(ids).next_value() < usize::MAX,
        ensures
            r.wf(),
            r.header.code == code,
            r.header.flag == 0,
            r.header.language@ == seq!['R', 'U', 'S', 'T'],
            r.header.remark is None,
            r.header.ext_fields@.len() == 0,
            r.body is None,
            final(ids).wf(),
            r.header.opaque == old(ids).next_value(),
            final(ids).next_value() == old(ids).next_value() + 1,
            final(ids).issued() == old(ids).issued().push(r.header.opaque),
    {
        Self::new_with_header(code, Vec::new(), ids)
    }

    /// A command with `code`, the extension fields `custom_header` (a later pair wins
    /// over an earlier one with its key), no body, and the next opaque of `ids`.
    pub fn new_with_header(code: u8, custom_header: Vec<(String, String)>, ids: &mut OpaqueGenerator) -> (r: Command)
        requires
            old(ids).wf(),
            old(ids).next_value() < usize::MAX,
        ensures
            r.wf(),
            r.header.code == code,
            r.header.flag == 0,
            r.header.language@ == seq!['R', 'U', 'S', 'T'],
            r.header.remark is None,
            forall|k: Seq<char>| r.property(k) == last_value(custom_header@, k),
            custom_header@.len() == 0 ==> r.header.ext_fields@.len() == 0,
            r.body is None,
            final(ids).wf(),
            r.header.opaque == old(ids).next_value(),
            final(ids).next_value() == old(ids).next_value() + 1,
            final(ids).issued() == old(ids).issued().push(r.header.opaque),
    {
        let empty = custom_header.len() == 0;
        let opaque = ids.issue();
        let ext_fields = collect_fields(custom_header);
        if empty {
            assert(ext_fields@.len() == 0) by {
                if ext_fields@.len() > 0 {
                    lemma_lookup_unique(ext_fields@, 0);
                }
            }
        }
        let language = "RUST".to_owned();
        proof { reveal_strlit("RUST"); }
        Command {
            header: Header { code, flag: 0, language, opaque, remark: None, ext_fields },
            body: None,
        }
    }

    /// A command made of a decoded header and a body.
    pub fn from_parts(header: Header, body: Vec<u8>) -> (r: Command)
        ensures
            r.header == header,
            r.body == Some(body),
    {
        Command { header, body: Some(body) }
    }

    pub fn code(&self) -> (r: u8)
        ensures
            r == self.header.code,
    {
        self.header.code
    }

    pub fn opaque(&self) -> (r: usize)
        ensures
            r == self.header.opaque,
    {
        self.header.opaque
    }

    pub fn header(&self) -> (r: &Header)
        ensures
            r == &self.header,
    {
        &self.header
    }

    /// Stores `value` under `key`, replacing an earlier value of `key`.
    pub fn add_property(&mut self, key: &str, value: &str)
        requires
            old(self).wf(),
        ensures
            final(self).wf(),
            final(self).property(key@) == Some(value@),
            forall|k: Seq<char>| k != key@ ==> final(self).property(k) == old(self).property(k),
            stored(old(self).header.ext_fields@, key@, value@, final(self).header.ext_fields@),
            final(self).header.code == old(self).header.code,
            final(self).header.opaque == old(self).header.opaque,
            final(self).body == old(self).body,
    {
        store(&mut self.header.ext_fields, key.to_owned(), value.to_owned());
    }

    /// The value stored under `key`, if any.
    pub fn get_property(&self, key: &str) -> (r: Option<&String>)
        requires
            self.wf(),
        ensures
            match r {
                Some(v) => self.property(key@) == Some(v@),
                None => self.property(key@) is None,
            },
    {
        let k = key.to_owned();
        match find_key(&self.header.ext_fields, &k) {
            Some(i) => {
                proof { lemma_lookup_unique(self.header.ext_fields@, i as int); }
                Some(&self.header.ext_fields[i].1)
            },
            None => None,
        }
    }

    pub fn set_body(&mut self, body: Vec<u8>)
        ensures
            final(self).body == Some(body),
            final(self).header == old(self).header,
    {
        self.body = Some(body);
    }

    pub fn body(&self) -> (r: Option<&[u8]>)
        ensures
            match r {
                Some(b) => self.body matches Some(v) && b@ == v@,
                None => self.body is None,
            },
    {
        match &self.body {
            Some(v) => Some(v.as_slice()),
            None => None,
        }
    }

    /// The frame that carries this command, given the text encoding of its header.
    pub fn encode(&self, header_text: &[u8]) -> (r: Vec<u8>)
        requires
            fits_frame(header_text@.len() as int, body_bytes(self.body).len() as int),
        ensures
            r@ == frame_bytes(header_text@, body_bytes(self.body)),
    {
        match &self.body {
            Some(b) => encode_frame(header_text, b.as_slice()),
            None => {
                let empty: Vec<u8> = Vec::new();
                encode_frame(header_text, empty.as_slice())
            },
        }
    }
}

} // verus!
