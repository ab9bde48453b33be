use vstd::prelude::*;
use vstd::string::StringExecFns;
use rand::Rng;
use crate::text::{string_of, digit_to_char};

verus! {

/// The trusted-peer table: pairing token, device name.
pub open spec fn keys_distinct(s: Seq<(String, String)>) -> bool {
    forall|i: int, j: int| 0 <= i < j < s.len() ==> (#[trigger] s[i]).0@ != (#[trigger] s[j]).0@
}

/// Whether a token is in the table.
pub open spec fn has_key(s: Seq<(String, String)>, k: Seq<char>) -> bool {
    exists|i: int| 0 <= i < s.len() && (#[trigger] s[i]).0@ == k
}

/// The token → device-name map that a peer table stands for.
pub open spec fn peer_map(s: Seq<(String, String)>) -> Map<Seq<char>, Seq<char>> {
    Map::new(
        |k: Seq<char>| has_key(s, k),
        |k: Seq<char>| s[choose|i: int| 0 <= i < s.len() && (#[trigger] s[i]).0@ == k].1@,
    )
}

/// The pairing state: the PIN currently offered (if any), and the trusted
/// peers (absent until the table was loaded).
pub struct PairingView {
    pub pin: Option<Seq<char>>,
    pub peers: Option<Map<Seq<char>, Seq<char>>>,
}

/// Whether `token` belongs to a trusted peer.
pub open spec fn authenticated(v: PairingView, token: Seq<char>) -> bool {
    match v.peers {
        Some(m) => m.dom().contains(token),
        None => false,
    }
}

/// The state after a pairing attempt with `pin` for `device`, the token
/// handed out being `token`: on a PIN match the token is trusted (when the
/// table is loaded) and the PIN is used up; otherwise nothing changes.
pub open spec fn paired(v: PairingView, pin: Seq<char>, device: Seq<char>, token: Seq<char>) -> (PairingView, Option<Seq<char>>) {
    if v.pin == Some(pin) {
        (
            PairingView {
                pin: None,
                peers: match v.peers {
                    Some(m) => Some(m.insert(token, device)),
                    None => None,
                },
            },
            Some(token),
        )
    } else {
        (v, None)
    }
}

/// A random decimal digit (`rand::thread_rng().gen_range(0..10)`).
#[verifier::external_body]
fn random_digit() -> (d: u64)
    ensures
        d < 10,
{
    rand::thread_rng().gen_range(0..10u64)
}

/// A lowercase hexadecimal digit.
pub open spec fn lower_hex_digit(c: char) -> bool {
    ('0' <= c <= '9') || ('a' <= c <= 'f')
}

/// What position `i` of a random UUID's text holds: `-` at 8, 13, 18 and
/// 23; the version digit `4` at 14; the variant digit (`8`, `9`, `a` or `b`)
/// at 19; a lowercase hexadecimal digit elsewhere.
pub open spec fn uuid_v4_char(s: Seq<char>, i: int) -> bool {
    if i == 8 || i == 13 || i == 18 || i == 23 {
        s[i] == '-'
    } else if i == 14 {
        s[i] == '4'
    } else if i == 19 {
        s[i] == '8' || s[i] == '9' || s[i] == 'a' || s[i] == 'b'
    } else {
        lower_hex_digit(s[i])
    }
}

/// The hyphenated text of a random (version 4, RFC 4122 variant) UUID,
/// such as `936da01f-9abd-4d9d-80c7-02af85c822a8`.
pub open spec fn uuid_v4_text(s: Seq<char>) -> bool {
    &&& s.len() == 36
    &&& forall|i: int| 0 <= i < 36 ==> #[trigger] uuid_v4_char(s, i)
}

/// A fresh random token: `uuid::Uuid::new_v4()` in its hyphenated text
/// form (`to_string`, lowercase).  The value depends on chance; claimed is
/// only the form every outcome has: version digit `4`, variant digit one of
/// `8`, `9`, `a`, `b`, hyphens at 8, 13, 18 and 23.
#[verifier::external_body]
fn new_token() -> (t: String)
    ensures
        uuid_v4_text(t@),
{
    uuid::Uuid::new_v4().to_string()
}

/// Whether every character is a decimal digit.
pub open spec fn all_digits(s: Seq<char>) -> bool {
    forall|i: int| 0 <= i < s.len() ==> '0' <= #[trigger] s[i] <= '9'
}

/// How a stored peer table was found.
pub enum PeerFile {
    /// The file could not be read.
    Missing,
    /// The file was read but is no valid table.
    Unreadable,
    /// The entries of the table.
    Parsed(Vec<(String, String)>),
}

/// PIN pairing and the trusted-peer table.
pub struct PairingState {
    pin: Option<String>,
    peers: Option<Vec<(String, String)>>,
}

impl View for PairingState {
    type V = PairingView;

    closed spec fn view(&self) -> PairingView {
        PairingView {
            pin: match self.pin {
                Some(p) => Some(p@),
                None => None,
            },
            peers: match self.peers {
                Some(t) => Some(peer_map(t@)),
                None => None,
            },
        }
    }
}

proof fn lemma_peer_map_push(s: Seq<(String, String)>, e: (String, String))
    requires
        keys_distinct(s),
        !has_key(s, e.0@),
    ensures
        keys_distinct(s.push(e)),
        peer_map(s.push(e)) == peer_map(s).insert(e.0@, e.1@),
{
    let t = s.push(e);
    assert forall|k: Seq<char>| has_key(t, k) <==> (has_key(s, k) || k == e.0@) by {
        if has_key(s, k) {
            let i = choose|i: int| 0 <= i < s.len() && (#[trigger] s[i]).0@ == k;
            assert(t[i] == s[i]);
        }
        if k == e.0@ {
            assert(t[s.len() as int] == e);
        }
        if has_key(t, k) && k != e.0@ {
            let i = choose|i: int| 0 <= i < t.len() && (#[trigger] t[i]).0@ == k;
            assert(s[i] == t[i]);
        }
    }
    assert forall|k: Seq<char>| #[trigger] has_key(t, k) implies peer_map(t)[k] == peer_map(s).insert(e.0@, e.1@)[k] by {
        let i = choose|i: int| 0 <= i < t.len() && (#[trigger] t[i]).0@ == k;
        if k == e.0@ {
            if i < s.len() {
                assert(s[i] == t[i]);
            }
        } else {
            let j = choose|j: int| 0 <= j < s.len() && (#[trigger] s[j]).0@ == k;
            assert(t[j] == s[j]);
            if i != j {
                if i < j {
                    assert(t[i].0@ != t[j].0@);
                } else if i < s.len() {
                    assert(s[j].0@ != s[i].0@);
                }
            }
        }
    }
    assert(peer_map(t) =~= peer_map(s).insert(e.0@, e.1@));
}

proof fn lemma_peer_map_update(s: Seq<(String, String)>, i: int, e: (String, String))
    requires
        keys_distinct(s),
        0 <= i < s.len(),
        s[i].0@ == e.0@,
    ensures
        keys_distinct(s.update(i, e)),
        peer_map(s.update(i, e)) == peer_map(s).insert(e.0@, e.1@),
{
    let t = s.update(i, e);
    assert forall|a: int, b: int| 0 <= a < b < t.len() implies (#[trigger] t[a]).0@ != (#[trigger] t[b]).0@ by {
        assert(s[a].0@ != s[b].0@);
    }
    assert forall|k: Seq<char>| has_key(t, k) <==> has_key(s, k) by {
        if has_key(s, k) {
            let j = choose|j: int| 0 <= j < s.len() && (#[trigger] s[j]).0@ == k;
            if j == i { assert(t[i].0@ == k); } else { assert(t[j] == s[j]); }
        }
        if has_key(t, k) {
            let j = choose|j: int| 0 <= j < t.len() && (#[trigger] t[j]).0@ == k;
            if j == i { assert(s[i].0@ == k); } else { assert(t[j] == s[j]); }
        }
    }
    assert forall|k: Seq<char>| #[trigger] has_key(t, k) implies peer_map(t)[k] == peer_map(s).insert(e.0@, e.1@)[k] by {
        let a = choose|a: int| 0 <= a < t.len() && (#[trigger] t[a]).0@ == k;
        let b = choose|b: int| 0 <= b < s.len() && (#[trigger] s[b]).0@ == k;
        if k == e.0@ {
            if a != i {
                assert(t[a] == s[a]);
                if a < i { assert(s[a].0@ != s[i].0@); } else { assert(s[i].0@ != s[a].0@); }
            }
        } else {
            assert(a != i);
            assert(t[a] == s[a]);
            if a != b {
                if a < b { assert(s[a].0@ != s[b].0@); } else { assert(s[b].0@ != s[a].0@); }
            }
        }
    }
    assert(peer_map(t) =~= peer_map(s).insert(e.0@, e.1@));
}

/// Set `key` to `value` in a peer table, keeping keys distinct.
fn table_insert(table: &mut Vec<(String, String)>, key: String, value: String)
    requires
        keys_distinct(old(table)@),
    ensures
        keys_distinct(final(table)@),
        peer_map(final(table)@) == peer_map(old(table)@).insert(key@, value@),
{
    let mut i: usize = 0;
    while i < table.len()
        invariant
            0 <= i <= table.len(),
            table@ == old(table)@,
            keys_distinct(table@),
            forall|j: int| 0 <= j < i ==> (#[trigger] table@[j]).0@ != key@,
        decreases table.len() - i,
    {
        if table[i].0 == key {
            proof {
                lemma_peer_map_update(table@, i as int, (key, value));
            }
            table.set(i, (key, value));
            return;
        }
        i = i + 1;
    }
    proof {
        lemma_peer_map_push(table@, (key, value));
    }
    table.push((key, value));
}

fn table_contains(table: &Vec<(String, String)>, key: &String) -> (r: bool)
    ensures
        r == has_key(table@, key@),
{
    let mut i: usize = 0;
    while i < table.len()
        invariant
            0 <= i <= table.len(),
            forall|j: int| 0 <= j < i ==> (#[trigger] table@[j]).0@ != key@,
        decreases table.len() - i,
    {
        if table[i].0 == *key {
            return true;
        }
        i = i + 1;
    }
    false
}

impl PairingState {
    /// No PIN offered and no peer table loaded.
    pub fn new() -> (s: PairingState)
        ensures
            s@.pin is None,
            s@.peers is None,
    {
        PairingState { pin: None, peers: None }
    }

    /// Whether the peer table is loaded.
    pub fn peers_loaded(&self) -> (b: bool)
        ensures
            b == (self@.peers is Some),
    {
        self.peers.is_some()
    }

    /// The trusted peers (token, device name), when loaded.
    pub fn trusted_peers(&self) -> (t: Option<&Vec<(String, String)>>)
        ensures
            match t {
                Some(v) => self@.peers == Some(peer_map(v@)) && keys_distinct(v@),
                None => self@.peers is None,
            },
    {
        proof {
            use_type_invariant(self);
        }
        match &self.peers {
            Some(v) => Some(v),
            None => None,
        }
    }

    /// Tokens in the peer table are distinct.
    #[verifier::type_invariant]
    spec fn wf(&self) -> bool {
        match self.peers {
            Some(t) => keys_distinct(t@),
            None => true,
        }
    }
}


/// The map after inserting every entry in order (later entries win).
pub open spec fn insert_all(m: Map<Seq<char>, Seq<char>>, s: Seq<(String, String)>) -> Map<Seq<char>, Seq<char>>
    decreases s.len(),
{
    if s.len() == 0 {
        m
    } else {
        insert_all(m, s.drop_last()).insert(s.last().0@, s.last().1@)
    }
}

/// The peer table after loading a stored one: merged into the loaded table
/// (or an empty one) when parsed; created empty when the file is missing;
/// left as it was when the file could not be parsed.
pub open spec fn after_load(peers: Option<Map<Seq<char>, Seq<char>>>, file: &PeerFile) -> Option<Map<Seq<char>, Seq<char>>> {
    match file {
        PeerFile::Missing => match peers {
            Some(m) => Some(m),
            None => Some(Map::empty()),
        },
        PeerFile::Unreadable => peers,
        PeerFile::Parsed(entries) => Some(insert_all(
            match peers {
                Some(m) => m,
                None => Map::empty(),
            },
            entries@,
        )),
    }
}

/// Merge a stored peer table into the state.
pub fn load_trusted_peers(state: &mut PairingState, file: PeerFile)
    ensures
        final(state)@.pin == old(state)@.pin,
        final(state)@.peers == after_load(old(state)@.peers, &file),
{
    proof {
        use_type_invariant(&*state);
    }
    match file {
        PeerFile::Missing => {
            if state.peers.is_none() {
                state.peers = Some(Vec::new());
                assert(peer_map(Seq::<(String, String)>::empty()) =~= Map::empty());
            }
        },
        PeerFile::Unreadable => {},
        PeerFile::Parsed(entries) => {
            let mut taken: Option<Vec<(String, String)>> = None;
            std::mem::swap(&mut taken, &mut state.peers);
            let mut table = match taken {
                Some(t) => t,
                None => Vec::new(),
            };
            assert(peer_map(Seq::<(String, String)>::empty()) =~= Map::empty());
            let ghost start = peer_map(table@);
            let mut i: usize = 0;
            while i < entries.len()
                invariant
                    0 <= i <= entries.len(),
                    keys_distinct(table@),
                    peer_map(table@) == insert_all(start, entries@.subrange(0, i as int)),
                decreases entries.len() - i,
            {
                let k = entries[i].0.clone();
                let v = entries[i].1.clone();
                table_insert(&mut table, k, v);
                i = i + 1;
                proof {
                    assert(entries@.subrange(0, i as int).drop_last() == entries@.subrange(0, i - 1));
                }
            }
            assert(entries@.subrange(0, entries.len() as int) == entries@);
            state.peers = Some(table);
        },
    }
}


/// Offer a fresh six-digit PIN, replacing any earlier one.  The digits come
/// from chance; what always holds is that there are six of them.
pub fn generate_pin(state: &mut PairingState) -> (pin: String)
    ensures
        pin@.len() == 6,
        all_digits(pin@),
        final(state)@.pin == Some(pin@),
        final(state)@.peers == old(state)@.peers,
{
    let mut digits: Vec<char> = Vec::new();
    let mut i: usize = 0;
    while i < 6
        invariant
            0 <= i <= 6,
            digits@.len() == i,
            all_digits(digits@),
        decreases 6 - i,
    {
        let d = random_digit();
        digits.push(digit_to_char(d));
        i = i + 1;
    }
    let pin = string_of(&digits);
    proof {
        use_type_invariant(&*state);
    }
    state.pin = Some(pin.clone());
    pin
}

/// How long an offered PIN stays valid, in seconds.
pub const PIN_LIFETIME_SECS: u64 = 60;

/// The state after the offered PIN expires: no PIN is on offer; the
/// peers stay as they are.
pub open spec fn pin_expired(v: PairingView) -> PairingView {
    PairingView { pin: None, ..v }
}

/// Expire the offered PIN, [`PIN_LIFETIME_SECS`] after a PIN was generated:
/// whatever PIN is on offer then is withdrawn.
pub fn expire_pin(state: &mut PairingState)
    ensures
        final(state)@ == pin_expired(old(state)@),
{
    proof {
        use_type_invariant(&*state);
    }
    state.pin = None;
}

fn pin_matches(state: &PairingState, pin: &str) -> (r: bool)
    ensures
        r == (state@.pin == Some(pin@)),
{
    match &state.pin {
        Some(p) => *p == String::from_str(pin),
        None => false,
    }
}

/// Complete a pairing with a given token: when `pin` is the offered PIN, the
/// PIN is used up, `token` is trusted for `device_name` (when the peer table
/// is loaded) and returned; otherwise nothing changes.
pub fn pair_with_token(state: &mut PairingState, pin: &str, device_name: &str, token: String) -> (r: Option<String>)
    ensures
        (final(state)@, match r { Some(t) => Some(t@), None => None })
            == paired(old(state)@, pin@, device_name@, token@),
{
    proof {
        use_type_invariant(&*state);
    }
    if !pin_matches(state, pin) {
        return None;
    }
    if state.peers.is_some() {
        let mut taken: Option<Vec<(String, String)>> = None;
        std::mem::swap(&mut taken, &mut state.peers);
        let mut table = taken.unwrap();
        table_insert(&mut table, token.clone(), String::from_str(device_name));
        state.peers = Some(table);
    }
    state.pin = None;
    Some(token)
}

/// Try to pair with `pin`.  On a match a fresh random token is trusted for
/// `device_name` (when the peer table is loaded), the PIN is used up and the
/// token returned; otherwise nothing changes.
pub fn attempt_pair(state: &mut PairingState, pin: &str, device_name: &str) -> (r: Option<String>)
    ensures
        r is Some <==> old(state)@.pin == Some(pin@),
        match r {
            Some(t) => (final(state)@, Some(t@)) == paired(old(state)@, pin@, device_name@, t@) && uuid_v4_text(t@),
            None => final(state)@ == old(state)@,
        },
{
    if !pin_matches(state, pin) {
        return None;
    }
    let token = new_token();
    pair_with_token(state, pin, device_name, token)
}

/// Whether `token` belongs to a trusted peer.
pub fn is_authenticated(state: &PairingState, token: &str) -> (r: bool)
    ensures
        r == authenticated(state@, token@),
{
    match &state.peers {
        Some(table) => {
            let key = String::from_str(token);
            table_contains(table, &key)
        },
        None => false,
    }
}

/// Why a resume request was refused.
#[derive(Debug, Clone, Copy, PartialEq, Eq, Structural)]
pub enum ResumeError {
    /// The token belongs to no trusted peer.
    InvalidToken,
}

impl ResumeError {
    /// The message of the refusal.
    pub fn message(&self) -> (s: &'static str)
        ensures
            s@ == "Invalid authentication token"@,
    {
        "Invalid authentication token"
    }
}

/// Answer a request to resume transfer `transfer_id` from `ip`: refused
/// unless `auth_token` belongs to a trusted peer; accepted requests are
/// answered with an empty text (the transfer itself is looked up by the
/// dashboard, which serves the resumed stream).
pub fn handle_resume_request(state: &PairingState, transfer_id: &str, auth_token: &str, ip: &str) -> (r: Result<String, ResumeError>)
    ensures
        !authenticated(state@, auth_token@) <==> r is Err,
        r matches Ok(t) ==> t@ == Seq::<char>::empty(),
{
    if !is_authenticated(state, auth_token) {
        return Err(ResumeError::InvalidToken);
    }
    Ok(String::new())
}

/// A successful pairing authenticates the token it hands out, as long as
/// the peer table is loaded.
pub proof fn law_pairing_authenticates(v: PairingView, pin: Seq<char>, device: Seq<char>, token: Seq<char>)
    requires
        v.pin == Some(pin),
        v.peers is Some,
    ensures
        paired(v, pin, device, token).1 == Some(token),
        authenticated(paired(v, pin, device, token).0, token),
{
}

/// A PIN pairs at most once: after a successful attempt, the same PIN is
/// refused and leaves the state as it is.
pub proof fn law_pin_single_use(v: PairingView, pin: Seq<char>, device: Seq<char>, token: Seq<char>, device2: Seq<char>, token2: Seq<char>)
    requires
        v.pin == Some(pin),
    ensures
        ({
            let after = paired(v, pin, device, token).0;
            paired(after, pin, device2, token2) == (after, None::<Seq<char>>)
        }),
{
}

/// A refused attempt changes nothing: peers stay trusted or untrusted as before.
pub proof fn law_wrong_pin_changes_nothing(v: PairingView, pin: Seq<char>, device: Seq<char>, token: Seq<char>, other: Seq<char>)
    requires
        v.pin != Some(pin),
    ensures
        paired(v, pin, device, token).0 == v,
        authenticated(paired(v, pin, device, token).0, other) == authenticated(v, other),
{
}

/// Pairing never revokes: every token trusted before stays trusted.
pub proof fn law_pairing_keeps_peers(v: PairingView, pin: Seq<char>, device: Seq<char>, token: Seq<char>, other: Seq<char>)
    requires
        authenticated(v, other),
    ensures
        authenticated(paired(v, pin, device, token).0, other),
{
}

/// After an expiry no PIN pairs, and the expiry revokes no peer.
pub proof fn law_expired_pin_refused(v: PairingView, pin: Seq<char>, device: Seq<char>, token: Seq<char>, other: Seq<char>)
    ensures
        paired(pin_expired(v), pin, device, token) == (pin_expired(v), None::<Seq<char>>),
        authenticated(pin_expired(v), other) == authenticated(v, other),
{
}

/// Every token that pairing hands out is one the uuid crate reads back as a
/// UUID (its hyphenated form).
pub proof fn law_token_is_uuid_text(t: Seq<char>)
    requires
        uuid_v4_text(t),
    ensures
        crate::dashboard::uuid_text(t),
{
    assert forall|i: int| 0 <= i < 36 implies #[trigger] crate::dashboard::uuid_hyphenated_char(t, i) by {
        assert(uuid_v4_char(t, i));
    }
}

} // verus!
