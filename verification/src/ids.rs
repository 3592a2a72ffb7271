//! The ids that identify this machine and this installation: read from the key-value
//! store when present, otherwise made up and written back, so that every later launch
//! finds the same id.

use vstd::prelude::*;

verus! {

/// An id, and whether this launch made it up (`New`) or found it stored (`Existing`).
#[derive(Clone, Debug)]
pub enum IdType {
    New(String),
    Existing(String),
}

/// An id as a value: whether it was made up by this launch, and its text.
pub enum IdTypeView {
    New(Seq<char>),
    Existing(Seq<char>),
}

impl IdTypeView {
    pub open spec fn text(self) -> Seq<char> {
        match self {
            IdTypeView::New(id) => id,
            IdTypeView::Existing(id) => id,
        }
    }
}

impl View for IdType {
    type V = IdTypeView;

    open spec fn view(&self) -> IdTypeView {
        match self {
            IdType::New(id) => IdTypeView::New(id@),
            IdType::Existing(id) => IdTypeView::Existing(id@),
        }
    }
}

impl IdType {
    /// The id's text, whether it is new or not.
    pub fn to_string(&self) -> (text: String)
        ensures
            text@ == self@.text(),
    {
        match self {
            IdType::New(id) => id.clone(),
            IdType::Existing(id) => id.clone(),
        }
    }
}

/// What reading one key of the key-value store gave.
pub enum KvRead {
    Value(String),
    Missing,
    Failed,
}

/// The id that a read found; a failed read counts as finding none.
pub open spec fn stored_id(read: KvRead) -> Option<Seq<char>> {
    match read {
        KvRead::Value(v) => Some(v@),
        _ => None,
    }
}

/// A change to the key-value store.
pub enum KvOp {
    Write { key: String, value: String },
    Delete { key: String },
}

pub enum KvOpView {
    Write(Seq<char>, Seq<char>),
    Delete(Seq<char>),
}

impl View for KvOp {
    type V = KvOpView;

    open spec fn view(&self) -> KvOpView {
        match self {
            KvOp::Write { key, value } => KvOpView::Write(key@, value@),
            KvOp::Delete { key } => KvOpView::Delete(key@),
        }
    }
}

/// The id a launch goes with, and the changes to the store it makes, in order, to keep
/// that id for the next launch.
pub struct IdPlan {
    pub id: IdType,
    pub ops: Vec<KvOp>,
}

pub struct IdPlanView {
    pub id: IdTypeView,
    pub ops: Seq<KvOpView>,
}

impl View for IdPlan {
    type V = IdPlanView;

    open spec fn view(&self) -> IdPlanView {
        IdPlanView { id: self.id@, ops: self.ops@.map_values(|op: KvOp| op@) }
    }
}

/// The key-value store as a map from keys to values.
pub open spec fn apply_op(store: Map<Seq<char>, Seq<char>>, op: KvOpView) -> Map<Seq<char>, Seq<char>> {
    match op {
        KvOpView::Write(key, value) => store.insert(key, value),
        KvOpView::Delete(key) => store.remove(key),
    }
}

/// The store after the changes `ops`, made in order.
pub open spec fn apply_ops(store: Map<Seq<char>, Seq<char>>, ops: Seq<KvOpView>) -> Map<Seq<char>, Seq<char>>
    decreases ops.len(),
{
    if ops.len() == 0 {
        store
    } else {
        apply_op(apply_ops(store, ops.drop_last()), ops.last())
    }
}

/// What reading `key` from the store finds.
pub open spec fn lookup(store: Map<Seq<char>, Seq<char>>, key: Seq<char>) -> Option<Seq<char>> {
    if store.dom().contains(key) {
        Some(store[key])
    } else {
        None
    }
}

/// Whether `c` is a lower-case hexadecimal digit.
pub open spec fn is_lower_hex(c: char) -> bool {
    ('0' <= c && c <= '9') || ('a' <= c && c <= 'f')
}

/// Whether `s` is a random (version 4) UUID as its hyphenated lower-case text writes it:
/// `xxxxxxxx-xxxx-4xxx-xxxx-xxxxxxxxxxxx`.
pub open spec fn is_uuid_text(s: Seq<char>) -> bool {
    &&& s.len() == 36
    &&& s[14] == '4'
    &&& forall|i: int|
        0 <= i < 36 ==> if i == 8 || i == 13 || i == 18 || i == 23 {
            #[trigger] s[i] == '-'
        } else {
            is_lower_hex(s[i])
        }
}

/// The lower-case hexadecimal digit of `n`, below sixteen.
pub open spec fn hex_digit(n: u8) -> char {
    if n == 0 { '0' }
    else if n == 1 { '1' }
    else if n == 2 { '2' }
    else if n == 3 { '3' }
    else if n == 4 { '4' }
    else if n == 5 { '5' }
    else if n == 6 { '6' }
    else if n == 7 { '7' }
    else if n == 8 { '8' }
    else if n == 9 { '9' }
    else if n == 10 { 'a' }
    else if n == 11 { 'b' }
    else if n == 12 { 'c' }
    else if n == 13 { 'd' }
    else if n == 14 { 'e' }
    else { 'f' }
}

/// The two hexadecimal digits of a byte, high first.
pub open spec fn hex_byte(b: u8) -> Seq<char> {
    seq![hex_digit(b >> 4), hex_digit(b & 0x0f)]
}

/// The bytes written as hexadecimal, two digits each, in order.
pub open spec fn hex_string(bytes: Seq<u8>) -> Seq<char>
    decreases bytes.len(),
{
    if bytes.len() == 0 {
        Seq::empty()
    } else {
        hex_string(bytes.drop_last()) + hex_byte(bytes.last())
    }
}

/// Random bytes made into a version 4 UUID: the high four bits of byte 6 set to the
/// version, 4, and the high two bits of byte 8 to the variant, `10`.
pub open spec fn version4_bytes(bytes: Seq<u8>) -> Seq<u8> {
    bytes.update(6, (bytes[6] & 0x0f) | 0x40).update(8, (bytes[8] & 0x3f) | 0x80)
}

/// The hyphenated text of a UUID's sixteen bytes: groups of 4, 2, 2, 2 and 6 bytes in
/// hexadecimal, joined by hyphens.
pub open spec fn hyphenated(bytes: Seq<u8>) -> Seq<char> {
    hex_string(bytes.subrange(0, 4)) + seq!['-'] + hex_string(bytes.subrange(4, 6)) + seq!['-']
        + hex_string(bytes.subrange(6, 8)) + seq!['-'] + hex_string(bytes.subrange(8, 10)) + seq!['-']
        + hex_string(bytes.subrange(10, 16))
}

/// The text of the version 4 UUID made from sixteen random bytes.
pub open spec fn uuid_v4_text(bytes: Seq<u8>) -> Seq<char> {
    hyphenated(version4_bytes(bytes))
}

proof fn lemma_hex_digit(n: u8)
    requires
        n < 16,
    ensures
        is_lower_hex(hex_digit(n)),
{
}

proof fn lemma_hex_string(bytes: Seq<u8>)
    ensures
        hex_string(bytes).len() == 2 * bytes.len(),
        forall|k: int| 0 <= k < hex_string(bytes).len() ==> is_lower_hex(#[trigger] hex_string(bytes)[k]),
        bytes.len() > 0 ==> hex_string(bytes)[0] == hex_digit(bytes[0] >> 4),
    decreases bytes.len(),
{
    if bytes.len() > 0 {
        let b = bytes.last();
        lemma_hex_string(bytes.drop_last());
        assert(b >> 4 < 16 && b & 0x0f < 16) by (bit_vector);
        lemma_hex_digit(b >> 4);
        lemma_hex_digit(b & 0x0f);
        let h = hex_string(bytes);
        let prefix = hex_string(bytes.drop_last());
        assert(h == prefix + hex_byte(b));
        assert forall|k: int| 0 <= k < h.len() implies is_lower_hex(#[trigger] h[k]) by {
            if k >= prefix.len() {
                assert(h[k] == hex_byte(b)[k - prefix.len()]);
            } else {
                assert(h[k] == prefix[k]);
            }
        }
        if bytes.len() > 1 {
            assert(bytes.drop_last()[0] == bytes[0]);
            assert(h[0] == prefix[0]);
        } else {
            assert(h[0] == hex_byte(b)[0]);
        }
    }
}

proof fn lemma_hex_byte_injective(a: u8, b: u8)
    requires
        hex_byte(a) == hex_byte(b),
    ensures
        a == b,
{
    assert(a >> 4 < 16 && a & 0x0f < 16 && b >> 4 < 16 && b & 0x0f < 16) by (bit_vector);
    assert(hex_byte(a)[0] == hex_byte(b)[0]);
    assert(hex_byte(a)[1] == hex_byte(b)[1]);
    assert(a >> 4 == b >> 4 && a & 0x0f == b & 0x0f ==> a == b) by (bit_vector);
}

proof fn lemma_hex_string_injective(x: Seq<u8>, y: Seq<u8>)
    requires
        x.len() == y.len(),
        hex_string(x) == hex_string(y),
    ensures
        x == y,
    decreases x.len(),
{
    if x.len() > 0 {
        lemma_hex_string(x.drop_last());
        lemma_hex_string(y.drop_last());
        let hx = hex_string(x.drop_last());
        let hy = hex_string(y.drop_last());
        let t = hex_string(x);
        assert(t == hx + hex_byte(x.last()));
        assert(t == hy + hex_byte(y.last()));
        assert(t.subrange(0, hx.len() as int) =~= hx);
        assert(t.subrange(0, hy.len() as int) =~= hy);
        assert(t.subrange(hx.len() as int, t.len() as int) =~= hex_byte(x.last()));
        assert(t.subrange(hy.len() as int, t.len() as int) =~= hex_byte(y.last()));
        lemma_hex_byte_injective(x.last(), y.last());
        lemma_hex_string_injective(x.drop_last(), y.drop_last());
        assert(x =~= x.drop_last().push(x.last()));
        assert(y =~= y.drop_last().push(y.last()));
    }
}

proof fn lemma_hyphenated_injective(x: Seq<u8>, y: Seq<u8>)
    requires
        x.len() == 16,
        y.len() == 16,
        hyphenated(x) == hyphenated(y),
    ensures
        x == y,
{
    let t = hyphenated(x);
    let d = seq!['-'];
    lemma_hex_string(x.subrange(0, 4));
    lemma_hex_string(x.subrange(4, 6));
    lemma_hex_string(x.subrange(6, 8));
    lemma_hex_string(x.subrange(8, 10));
    lemma_hex_string(x.subrange(10, 16));
    lemma_hex_string(y.subrange(0, 4));
    lemma_hex_string(y.subrange(4, 6));
    lemma_hex_string(y.subrange(6, 8));
    lemma_hex_string(y.subrange(8, 10));
    lemma_hex_string(y.subrange(10, 16));
    assert(t.subrange(0, 8) =~= hex_string(x.subrange(0, 4)));
    assert(t.subrange(0, 8) =~= hex_string(y.subrange(0, 4)));
    assert(t.subrange(9, 13) =~= hex_string(x.subrange(4, 6)));
    assert(t.subrange(9, 13) =~= hex_string(y.subrange(4, 6)));
    assert(t.subrange(14, 18) =~= hex_string(x.subrange(6, 8)));
    assert(t.subrange(14, 18) =~= hex_string(y.subrange(6, 8)));
    assert(t.subrange(19, 23) =~= hex_string(x.subrange(8, 10)));
    assert(t.subrange(19, 23) =~= hex_string(y.subrange(8, 10)));
    assert(t.subrange(24, 36) =~= hex_string(x.subrange(10, 16)));
    assert(t.subrange(24, 36) =~= hex_string(y.subrange(10, 16)));
    lemma_hex_string_injective(x.subrange(0, 4), y.subrange(0, 4));
    lemma_hex_string_injective(x.subrange(4, 6), y.subrange(4, 6));
    lemma_hex_string_injective(x.subrange(6, 8), y.subrange(6, 8));
    lemma_hex_string_injective(x.subrange(8, 10), y.subrange(8, 10));
    lemma_hex_string_injective(x.subrange(10, 16), y.subrange(10, 16));
    assert forall|i: int| 0 <= i < 16 implies x[i] == y[i] by {
        if i < 4 {
            assert(x.subrange(0, 4)[i] == y.subrange(0, 4)[i]);
        } else if i < 6 {
            assert(x.subrange(4, 6)[i - 4] == y.subrange(4, 6)[i - 4]);
        } else if i < 8 {
            assert(x.subrange(6, 8)[i - 6] == y.subrange(6, 8)[i - 6]);
        } else if i < 10 {
            assert(x.subrange(8, 10)[i - 8] == y.subrange(8, 10)[i - 8]);
        } else {
            assert(x.subrange(10, 16)[i - 10] == y.subrange(10, 16)[i - 10]);
        }
    }
    assert(x =~= y);
}

/// Random bytes that differ in more than the version and variant bits make different
/// UUIDs.
pub proof fn lemma_uuid_v4_text_injective(b: Seq<u8>, c: Seq<u8>)
    requires
        b.len() == 16,
        c.len() == 16,
        version4_bytes(b) != version4_bytes(c),
    ensures
        uuid_v4_text(b) != uuid_v4_text(c),
{
    if uuid_v4_text(b) == uuid_v4_text(c) {
        lemma_hyphenated_injective(version4_bytes(b), version4_bytes(c));
    }
}

/// The text of every version 4 UUID has the hyphenated shape, with the version digit 4.
pub proof fn lemma_uuid_v4_text_shape(bytes: Seq<u8>)
    requires
        bytes.len() == 16,
    ensures
        is_uuid_text(uuid_v4_text(bytes)),
{
    let v = version4_bytes(bytes);
    let s0 = v.subrange(0, 4);
    let s1 = v.subrange(4, 6);
    let s2 = v.subrange(6, 8);
    let s3 = v.subrange(8, 10);
    let s4 = v.subrange(10, 16);
    lemma_hex_string(s0);
    lemma_hex_string(s1);
    lemma_hex_string(s2);
    lemma_hex_string(s3);
    lemma_hex_string(s4);
    let h0 = hex_string(s0);
    let h1 = hex_string(s1);
    let h2 = hex_string(s2);
    let h3 = hex_string(s3);
    let h4 = hex_string(s4);
    let t = uuid_v4_text(bytes);
    let dash = seq!['-'];
    assert(t == h0 + dash + h1 + dash + h2 + dash + h3 + dash + h4);
    assert(t.len() == 36);
    let b6 = bytes[6];
    assert(((b6 & 0x0f) | 0x40) >> 4 == 4) by (bit_vector);
    assert(s2[0] == (b6 & 0x0f) | 0x40);
    assert(t[14] == h2[0]);
    assert forall|i: int|
        0 <= i < 36 implies if i == 8 || i == 13 || i == 18 || i == 23 {
            #[trigger] t[i] == '-'
        } else {
            is_lower_hex(t[i])
        } by {
        if i < 8 {
            assert(t[i] == h0[i]);
        } else if i == 8 {
            assert(t[i] == dash[0]);
        } else if i < 13 {
            assert(t[i] == h1[i - 9]);
        } else if i == 13 {
            assert(t[i] == dash[0]);
        } else if i < 18 {
            assert(t[i] == h2[i - 14]);
        } else if i == 18 {
            assert(t[i] == dash[0]);
        } else if i < 23 {
            assert(t[i] == h3[i - 19]);
        } else if i == 23 {
            assert(t[i] == dash[0]);
        } else {
            assert(t[i] == h4[i - 24]);
        }
    }
}

/// Calls `getrandom::fill` on sixteen bytes: none when the system's random source fails.
/// The bytes are random; nothing is claimed of them.
#[verifier::external_body]
fn random_bytes() -> (bytes: Option<[u8; 16]>) {
    let mut bytes = [0u8; 16];
    match getrandom::fill(&mut bytes) {
        Ok(()) => Some(bytes),
        Err(_) => None,
    }
}

/// Calls `uuid::Builder::from_random_bytes` on `bytes` and writes the UUID with
/// `to_string`. Claimed, as `uuid`'s source shows: the version and variant bits are set
/// (`with_version`, `with_variant`) and `Display` writes the bytes as lower-case
/// hyphenated hex.
#[verifier::external_body]
fn uuid_text_from_random_bytes(bytes: [u8; 16]) -> (text: String)
    ensures
        text@ == uuid_v4_text(bytes@),
{
    uuid::Builder::from_random_bytes(bytes).into_uuid().to_string()
}

/// The key the machine's id is kept under, in the store shared by all release channels.
pub open spec fn system_id_key() -> Seq<char> {
    "system_id"@
}

/// The key the installation's id is kept under.
pub open spec fn installation_id_key() -> Seq<char> {
    "installation_id"@
}

/// The key an older release kept the installation's id under.
pub open spec fn legacy_installation_id_key() -> Seq<char> {
    "device_id"@
}

/// The machine's id: the stored one, or else `fresh`, written under its key.
pub open spec fn system_id_plan(stored: Option<Seq<char>>, fresh: Seq<char>) -> IdPlanView {
    match stored {
        Some(id) => IdPlanView { id: IdTypeView::Existing(id), ops: Seq::empty() },
        None => IdPlanView {
            id: IdTypeView::New(fresh),
            ops: seq![KvOpView::Write(system_id_key(), fresh)],
        },
    }
}

/// The installation's id: one stored under the old key moves to the new key (written,
/// then the old key deleted); else the one stored under the new key; else `fresh`,
/// written under the new key.
pub open spec fn installation_id_plan(
    legacy: Option<Seq<char>>,
    current: Option<Seq<char>>,
    fresh: Seq<char>,
) -> IdPlanView {
    match legacy {
        Some(id) => IdPlanView {
            id: IdTypeView::Existing(id),
            ops: seq![
                KvOpView::Write(installation_id_key(), id),
                KvOpView::Delete(legacy_installation_id_key()),
            ],
        },
        None => match current {
            Some(id) => IdPlanView { id: IdTypeView::Existing(id), ops: Seq::empty() },
            None => IdPlanView {
                id: IdTypeView::New(fresh),
                ops: seq![KvOpView::Write(installation_id_key(), fresh)],
            },
        },
    }
}

/// Why no id could be decided: a new one was needed and the system's random source
/// failed.
#[derive(Clone, Copy, Debug, PartialEq, Eq, Structural)]
pub enum IdError {
    RandomSourceFailed,
}

/// Whether `plan` is what the key reads and the random draw give: the plan of the id
/// decided with the UUID the drawn bytes make as the new id, or, where a new id was needed
/// and nothing could be drawn, the error.
pub open spec fn plan_from_draw(
    plan: Result<IdPlan, IdError>,
    needs_new_id: bool,
    drawn: Option<[u8; 16]>,
    decided: spec_fn(Seq<char>) -> IdPlanView,
) -> bool {
    if !needs_new_id {
        plan matches Ok(p) && p@ == decided(Seq::empty())
    } else {
        match drawn {
            Some(b) => plan matches Ok(p) && p@ == decided(uuid_v4_text(b@)),
            None => plan == Err::<IdPlan, IdError>(IdError::RandomSourceFailed),
        }
    }
}

/// The machine's id from what reading its key gave and, for a new id, the random bytes
/// drawn: a stored id is kept; a new one is the version 4 UUID the bytes make, written
/// under its key; without bytes there is no new id.
pub fn system_id_from(stored: KvRead, drawn: Option<[u8; 16]>) -> (plan: Result<IdPlan, IdError>)
    ensures
        plan_from_draw(plan, stored_id(stored) is None, drawn, |fresh: Seq<char>| system_id_plan(stored_id(stored), fresh)),
{
    match stored {
        KvRead::Value(id) => {
            let plan = IdPlan { id: IdType::Existing(id), ops: Vec::new() };
            assert(plan@.ops =~= Seq::<KvOpView>::empty());
            Ok(plan)
        },
        _ => {
            let bytes = match drawn {
                Some(bytes) => bytes,
                None => return Err(IdError::RandomSourceFailed),
            };
            let fresh = uuid_text_from_random_bytes(bytes);
            let mut ops: Vec<KvOp> = Vec::new();
            ops.push(KvOp::Write { key: String::from_str("system_id"), value: fresh.clone() });
            let plan = IdPlan { id: IdType::New(fresh), ops };
            assert(plan@.ops =~= seq![KvOpView::Write(system_id_key(), uuid_v4_text(bytes@))]);
            Ok(plan)
        },
    }
}

/// The installation's id from what reading the old key (`legacy`) and the new key
/// (`current`) gave and, for a new id, the random bytes drawn: an id under the old key
/// moves to the new key; else an id under the new key is kept; else the new id is the
/// version 4 UUID the bytes make, written under the new key; without bytes there is no new
/// id. `current` is not looked at when the old key holds an id.
pub fn installation_id_from(legacy: KvRead, current: KvRead, drawn: Option<[u8; 16]>) -> (plan: Result<IdPlan, IdError>)
    ensures
        plan_from_draw(
            plan,
            stored_id(legacy) is None && stored_id(current) is None,
            drawn,
            |fresh: Seq<char>| installation_id_plan(stored_id(legacy), stored_id(current), fresh),
        ),
{
    match legacy {
        KvRead::Value(id) => {
            let mut ops: Vec<KvOp> = Vec::new();
            ops.push(KvOp::Write { key: String::from_str("installation_id"), value: id.clone() });
            ops.push(KvOp::Delete { key: String::from_str("device_id") });
            let plan = IdPlan { id: IdType::Existing(id), ops };
            assert(plan@.ops =~= seq![
                KvOpView::Write(installation_id_key(), plan@.id.text()),
                KvOpView::Delete(legacy_installation_id_key()),
            ]);
            Ok(plan)
        },
        _ => match current {
            KvRead::Value(id) => {
                let plan = IdPlan { id: IdType::Existing(id), ops: Vec::new() };
                assert(plan@.ops =~= Seq::<KvOpView>::empty());
                Ok(plan)
            },
            _ => {
                let bytes = match drawn {
                    Some(bytes) => bytes,
                    None => return Err(IdError::RandomSourceFailed),
                };
                let fresh = uuid_text_from_random_bytes(bytes);
                let mut ops: Vec<KvOp> = Vec::new();
                ops.push(KvOp::Write { key: String::from_str("installation_id"), value: fresh.clone() });
                let plan = IdPlan { id: IdType::New(fresh), ops };
                assert(plan@.ops =~= seq![KvOpView::Write(installation_id_key(), uuid_v4_text(bytes@))]);
                Ok(plan)
            },
        },
    }
}

/// Decides the machine's id from what reading its key gave, drawing random bytes only when
/// a new id is needed. A stored id is always found; a new id is a random version 4 UUID,
/// and fails only when the random source does.
pub fn system_id(stored: KvRead) -> (plan: Result<IdPlan, IdError>)
    ensures
        stored_id(stored) is Some ==> plan is Ok,
        plan matches Ok(p) ==> p@ == system_id_plan(stored_id(stored), p@.id.text()),
        plan matches Ok(p) ==> (stored_id(stored) is None ==> is_uuid_text(p@.id.text())),
        plan matches Ok(p) ==> (stored_id(stored) is None ==> exists|b: Seq<u8>|
            b.len() == 16 && #[trigger] uuid_v4_text(b) == p@.id.text()),
{
    let drawn = match stored {
        KvRead::Value(_) => None,
        _ => random_bytes(),
    };
    let plan = system_id_from(stored, drawn);
    proof {
        if let Some(b) = drawn {
            lemma_uuid_v4_text_shape(b@);
        }
    }
    plan
}

/// Decides the installation's id from what reading the old key (`legacy`) and the new key
/// (`current`) gave, drawing random bytes only when a new id is needed. A stored id is
/// always found; a new id is a random version 4 UUID, and fails only when the random
/// source does.
pub fn installation_id(legacy: KvRead, current: KvRead) -> (plan: Result<IdPlan, IdError>)
    ensures
        stored_id(legacy) is Some || stored_id(current) is Some ==> plan is Ok,
        plan matches Ok(p) ==> p@ == installation_id_plan(stored_id(legacy), stored_id(current), p@.id.text()),
        plan matches Ok(p) ==> (stored_id(legacy) is None && stored_id(current) is None
            ==> is_uuid_text(p@.id.text())),
        plan matches Ok(p) ==> (stored_id(legacy) is None && stored_id(current) is None
            ==> exists|b: Seq<u8>| b.len() == 16 && #[trigger] uuid_v4_text(b) == p@.id.text()),
{
    let needs_new_id = match (&legacy, &current) {
        (KvRead::Value(_), _) => false,
        (_, KvRead::Value(_)) => false,
        _ => true,
    };
    let drawn = if needs_new_id { random_bytes() } else { None };
    let plan = installation_id_from(legacy, current, drawn);
    proof {
        if let Some(b) = drawn {
            lemma_uuid_v4_text_shape(b@);
        }
    }
    plan
}

/// A decided id fails only when a new one was needed and no random bytes were drawn:
/// with a stored id, or with bytes drawn, an id is always decided.
pub proof fn lemma_id_fails_only_without_bytes(
    plan: Result<IdPlan, IdError>,
    needs_new_id: bool,
    drawn: Option<[u8; 16]>,
    decided: spec_fn(Seq<char>) -> IdPlanView,
)
    requires
        plan_from_draw(plan, needs_new_id, drawn, decided),
    ensures
        plan is Err <==> (needs_new_id && drawn is None),
{
}

/// On the first launch of a machine, the bytes drawn decide its id: it is a new id, the
/// version 4 UUID of those bytes, and it is the one value written, under `system_id`.
/// Two draws that differ in more than the version and variant bits give different ids.
pub proof fn lemma_first_launch_system_id(
    stored: KvRead,
    plan: Result<IdPlan, IdError>,
    b: [u8; 16],
    other_plan: Result<IdPlan, IdError>,
    other: [u8; 16],
)
    requires
        stored_id(stored) is None,
        plan_from_draw(plan, stored_id(stored) is None, Some(b),
            |fresh: Seq<char>| system_id_plan(stored_id(stored), fresh)),
        plan_from_draw(other_plan, stored_id(stored) is None, Some(other),
            |fresh: Seq<char>| system_id_plan(stored_id(stored), fresh)),
    ensures
        plan matches Ok(p) && p@.id == IdTypeView::New(uuid_v4_text(b@))
            && p@.ops == seq![KvOpView::Write("system_id"@, uuid_v4_text(b@))]
            && is_uuid_text(p@.id.text()),
        version4_bytes(b@) != version4_bytes(other@) ==> (plan matches Ok(p) && other_plan matches Ok(q)
            && p@.id != q@.id),
{
    lemma_uuid_v4_text_shape(b@);
    if version4_bytes(b@) != version4_bytes(other@) {
        lemma_uuid_v4_text_injective(b@, other@);
    }
}

/// On the first launch of an installation (neither the old `device_id` nor
/// `installation_id` holds an id), the bytes drawn decide its id: it is a new id, the
/// version 4 UUID of those bytes, and it is the one value written, under
/// `installation_id`. Two draws that differ give two different ids.
pub proof fn lemma_first_launch_installation_id(
    legacy: KvRead,
    current: KvRead,
    plan: Result<IdPlan, IdError>,
    b: [u8; 16],
    other_plan: Result<IdPlan, IdError>,
    other: [u8; 16],
)
    requires
        stored_id(legacy) is None,
        stored_id(current) is None,
        plan_from_draw(plan, stored_id(legacy) is None && stored_id(current) is None, Some(b),
            |fresh: Seq<char>| installation_id_plan(stored_id(legacy), stored_id(current), fresh)),
        plan_from_draw(other_plan, stored_id(legacy) is None && stored_id(current) is None, Some(other),
            |fresh: Seq<char>| installation_id_plan(stored_id(legacy), stored_id(current), fresh)),
    ensures
        plan matches Ok(p) && p@.id == IdTypeView::New(uuid_v4_text(b@))
            && p@.ops == seq![KvOpView::Write("installation_id"@, uuid_v4_text(b@))]
            && is_uuid_text(p@.id.text()),
        version4_bytes(b@) != version4_bytes(other@) ==> (plan matches Ok(p) && other_plan matches Ok(q)
            && p@.id != q@.id),
{
    lemma_uuid_v4_text_shape(b@);
    if version4_bytes(b@) != version4_bytes(other@) {
        lemma_uuid_v4_text_injective(b@, other@);
    }
}

proof fn lemma_keys_differ()
    ensures
        installation_id_key() != legacy_installation_id_key(),
{
    reveal_strlit("installation_id");
    reveal_strlit("device_id");
    assert(installation_id_key().len() != legacy_installation_id_key().len());
}

/// Once a launch has stored its machine id, every later launch finds that id, as an
/// existing one, and changes nothing.
pub proof fn lemma_system_id_persists(
    store: Map<Seq<char>, Seq<char>>,
    fresh: Seq<char>,
    later_fresh: Seq<char>,
)
    ensures
        ({
            let plan = system_id_plan(lookup(store, system_id_key()), fresh);
            let after = apply_ops(store, plan.ops);
            &&& lookup(after, system_id_key()) == Some(plan.id.text())
            &&& system_id_plan(lookup(after, system_id_key()), later_fresh) == IdPlanView {
                id: IdTypeView::Existing(plan.id.text()),
                ops: Seq::empty(),
            }
        }),
{
    let plan = system_id_plan(lookup(store, system_id_key()), fresh);
    if plan.ops.len() == 1 {
        assert(plan.ops.drop_last() =~= Seq::<KvOpView>::empty());
    }
}

/// Once a launch has stored its installation id, every later launch finds that id, as an
/// existing one, under the new key, with the old key gone, and changes nothing.
pub proof fn lemma_installation_id_persists(
    store: Map<Seq<char>, Seq<char>>,
    fresh: Seq<char>,
    later_fresh: Seq<char>,
)
    ensures
        ({
            let plan = installation_id_plan(
                lookup(store, legacy_installation_id_key()),
                lookup(store, installation_id_key()),
                fresh,
            );
            let after = apply_ops(store, plan.ops);
            &&& lookup(after, installation_id_key()) == Some(plan.id.text())
            &&& lookup(after, legacy_installation_id_key()) is None
            &&& installation_id_plan(
                lookup(after, legacy_installation_id_key()),
                lookup(after, installation_id_key()),
                later_fresh,
            ) == IdPlanView { id: IdTypeView::Existing(plan.id.text()), ops: Seq::empty() }
        }),
{
    lemma_keys_differ();
    let plan = installation_id_plan(
        lookup(store, legacy_installation_id_key()),
        lookup(store, installation_id_key()),
        fresh,
    );
    let legacy = legacy_installation_id_key();
    let key = installation_id_key();
    let after = apply_ops(store, plan.ops);
    match lookup(store, legacy) {
        Some(id) => {
            assert(plan.ops.drop_last().drop_last() =~= Seq::<KvOpView>::empty());
            assert(plan.ops.drop_last() =~= seq![plan.ops[0]]);
            let written = store.insert(key, id);
            let first = plan.ops.drop_last();
            assert(apply_ops(store, first.drop_last()) == store);
            assert(first.last() == KvOpView::Write(key, id));
            assert(apply_ops(store, first) == apply_op(store, first.last()));
            assert(apply_ops(store, first) == written);
            assert(after == written.remove(legacy));
            assert(after.dom().contains(key));
            assert(!after.dom().contains(legacy));
        },
        None => {
            if plan.ops.len() == 1 {
                assert(plan.ops.drop_last() =~= Seq::<KvOpView>::empty());
                assert(apply_ops(store, plan.ops.drop_last()) == store);
                assert(after == store.insert(key, plan.id.text()));
            } else {
                assert(after == store);
            }
            assert(!after.dom().contains(legacy));
        },
    }
}

/// The telemetry events a launch reports, from the machine and installation ids it found:
/// a first open (of the app, and of its release channel) for a new machine and a new
/// installation; a first open of the release channel for a new installation on a known
/// machine; a plain open otherwise. Nothing when either id is unknown.
pub open spec fn app_open_events(system_id: Option<IdTypeView>, installation_id: Option<IdTypeView>) -> Seq<Seq<char>> {
    match (system_id, installation_id) {
        (Some(IdTypeView::New(_)), Some(IdTypeView::New(_))) => seq![
            "App First Opened"@,
            "App First Opened For Release Channel"@,
        ],
        (Some(IdTypeView::Existing(_)), Some(IdTypeView::New(_))) => seq![
            "App First Opened For Release Channel"@,
        ],
        (Some(_), Some(IdTypeView::Existing(_))) => seq!["App Opened"@],
        _ => Seq::empty(),
    }
}

pub open spec fn id_view(id: Option<IdType>) -> Option<IdTypeView> {
    match id {
        Some(i) => Some(i@),
        None => None,
    }
}

/// The telemetry events of a launch with the given ids.
pub fn launch_events(system_id: &Option<IdType>, installation_id: &Option<IdType>) -> (events: Vec<&'static str>)
    ensures
        events@.map_values(|e: &'static str| e@) == app_open_events(id_view(*system_id), id_view(*installation_id)),
{
    let mut events: Vec<&'static str> = Vec::new();
    match (system_id, installation_id) {
        (Some(IdType::New(_)), Some(IdType::New(_))) => {
            events.push("App First Opened");
            events.push("App First Opened For Release Channel");
        },
        (Some(IdType::Existing(_)), Some(IdType::New(_))) => {
            events.push("App First Opened For Release Channel");
        },
        (Some(_), Some(IdType::Existing(_))) => {
            events.push("App Opened");
        },
        _ => {},
    }
    assert(events@.map_values(|e: &'static str| e@) =~= app_open_events(id_view(*system_id), id_view(*installation_id)));
    events
}

} // verus!
