//! The profiles issued to each connector, in the order they were issued.
//!
//! The store maps a key to the list of profiles recorded under it. It only
//! grows: a profile is appended to the list of its key and nothing is ever
//! removed or reordered. The controller reads it for the most recent profile
//! of a connector when the connector's state of charge cannot be read.

use vstd::prelude::*;
use vstd::hash_map::StringHashMap;
use vstd::string::StringExecFns;
use crate::types::{ChargeProfile, ChargeProfileView};

verus! {

/// What a store holds: for every key that something was recorded under, the
/// profiles recorded under it, oldest first.
pub type History = Map<Seq<char>, Seq<ChargeProfileView>>;

/// The profiles recorded under `key`, oldest first; none where nothing was.
pub open spec fn profiles_of(history: History, key: Seq<char>) -> Seq<ChargeProfileView> {
    if history.contains_key(key) {
        history[key]
    } else {
        Seq::empty()
    }
}

/// `history` with `profile` appended to the profiles of `key`.
pub open spec fn recorded(history: History, key: Seq<char>, profile: ChargeProfileView) -> History {
    history.insert(key, profiles_of(history, key).push(profile))
}

/// The profile recorded last under `key`, where there is one.
pub open spec fn most_recent_of(history: History, key: Seq<char>) -> Option<ChargeProfileView> {
    if profiles_of(history, key).len() > 0 {
        Some(profiles_of(history, key).last())
    } else {
        None
    }
}

/// The character that writes the digit `d`.
pub open spec fn digit_char(d: int) -> char {
    ('0' as int + d) as char
}

/// The digits that write `n` in base ten, without leading zeros.
pub open spec fn digits_text(n: nat) -> Seq<char>
    decreases n,
{
    if n < 10 {
        seq![digit_char(n as int)]
    } else {
        digits_text(n / 10).push(digit_char((n % 10) as int))
    }
}

/// `n` written in base ten, with a minus sign where it is negative.
pub open spec fn decimal_text(n: int) -> Seq<char> {
    if n < 0 {
        seq!['-'] + digits_text((-n) as nat)
    } else {
        digits_text(n as nat)
    }
}

/// The key of a connector: the charger's identifier, a hyphen, and the
/// connector's number.
pub open spec fn spec_history_key(charger_id: Seq<char>, connector_id: int) -> Seq<char> {
    charger_id + seq!['-'] + decimal_text(connector_id)
}

/// The text of one decimal digit.
fn digit_text(d: u32) -> (text: &'static str)
    requires
        d < 10,
    ensures
        text@ == seq![digit_char(d as int)],
{
    proof {
        reveal_strlit("0");
        reveal_strlit("1");
        reveal_strlit("2");
        reveal_strlit("3");
        reveal_strlit("4");
        reveal_strlit("5");
        reveal_strlit("6");
        reveal_strlit("7");
        reveal_strlit("8");
        reveal_strlit("9");
    }
    let text = if d == 0 {
        "0"
    } else if d == 1 {
        "1"
    } else if d == 2 {
        "2"
    } else if d == 3 {
        "3"
    } else if d == 4 {
        "4"
    } else if d == 5 {
        "5"
    } else if d == 6 {
        "6"
    } else if d == 7 {
        "7"
    } else if d == 8 {
        "8"
    } else {
        "9"
    };
    assert(text@ =~= seq![digit_char(d as int)]);
    text
}

/// Appends the digits of `n` to `out`.
fn push_digits(out: &mut String, n: u32)
    ensures
        final(out)@ == old(out)@ + digits_text(n as nat),
    decreases n,
{
    if n >= 10 {
        push_digits(out, n / 10);
    }
    let ghost before = out@;
    out.append(digit_text(n % 10));
    proof {
        if n >= 10 {
            assert(out@ =~= old(out)@ + digits_text((n / 10) as nat).push(
                digit_char((n % 10) as int),
            ));
        } else {
            assert(out@ =~= old(out)@ + seq![digit_char(n as int)]);
        }
    }
}

/// The key under which the profiles of a connector are kept: the charger's
/// identifier, a hyphen, and the connector's number in base ten.
pub fn history_key(charger_id: &String, connector_id: i32) -> (key: String)
    ensures
        key@ == spec_history_key(charger_id@, connector_id as int),
{
    proof {
        reveal_strlit("-");
    }
    let mut key = charger_id.clone();
    key.append("-");
    assert(key@ =~= charger_id@ + seq!['-']);
    if connector_id < 0 {
        key.append("-");
        push_digits(&mut key, (-(connector_id as i64)) as u32);
        assert(key@ =~= charger_id@ + seq!['-'] + (seq!['-'] + digits_text(
            (-connector_id) as nat,
        )));
    } else {
        push_digits(&mut key, connector_id as u32);
    }
    key
}

/// The profiles issued so far, by connector.
pub struct HistoryStore {
    slots: StringHashMap<usize>,
    profiles: Vec<Vec<ChargeProfile>>,
}

impl View for HistoryStore {
    type V = History;

    closed spec fn view(&self) -> History {
        Map::new(
            |key: Seq<char>| self.slots@.contains_key(key),
            |key: Seq<char>| self.profiles@[self.slots@[key] as int].deep_view(),
        )
    }
}

impl HistoryStore {
    /// Every key has a list of its own among the lists of the store.
    pub closed spec fn wf(&self) -> bool {
        &&& forall|key: Seq<char>| #[trigger]
            self.slots@.contains_key(key) ==> self.slots@[key] < self.profiles@.len()
        &&& forall|key: Seq<char>, other: Seq<char>|
            self.slots@.contains_key(key) && self.slots@.contains_key(other) && key != other
                ==> #[trigger] self.slots@[key] != #[trigger] self.slots@[other]
        &&& forall|slot: int|
            0 <= slot < self.profiles@.len() ==> (#[trigger] self.profiles@[slot])@.len() > 0
    }

    /// An empty store.
    pub fn new() -> (store: Self)
        ensures
            store.wf(),
            store@ == Map::<Seq<char>, Seq<ChargeProfileView>>::empty(),
    {
        let store = HistoryStore { slots: StringHashMap::new(), profiles: Vec::new() };
        assert(store@ =~= Map::<Seq<char>, Seq<ChargeProfileView>>::empty());
        store
    }

    /// Appends `profile` to the profiles of `key`.
    pub fn record(&mut self, key: String, profile: ChargeProfile)
        requires
            old(self).wf(),
        ensures
            final(self).wf(),
            final(self)@ == recorded(old(self)@, key@, profile@),
    {
        let found: Option<usize> = match self.slots.get(key.as_str()) {
            Some(slot) => Some(*slot),
            None => None,
        };
        match found {
            Some(slot) => {
                let ghost before = self.profiles@[slot as int].deep_view();
                self.profiles[slot].push(profile);
                assert(self.profiles@[slot as int].deep_view() =~= before.push(profile@));
                assert(self@ =~= recorded(old(self)@, key@, profile@));
            },
            None => {
                let slot = self.profiles.len();
                let mut list: Vec<ChargeProfile> = Vec::new();
                list.push(profile);
                assert(list.deep_view() =~= Seq::<ChargeProfileView>::empty().push(profile@));
                self.profiles.push(list);
                self.slots.insert(key, slot);
                assert(self@ =~= recorded(old(self)@, key@, profile@));
            },
        }
    }

    /// The profile recorded last under `key`, where there is one.
    pub fn most_recent(&self, key: &String) -> (profile: Option<&ChargeProfile>)
        requires
            self.wf(),
        ensures
            match profile {
                Some(profile) => most_recent_of(self@, key@) == Some(profile@),
                None => most_recent_of(self@, key@) is None,
            },
    {
        match self.slots.get(key.as_str()) {
            Some(slot) => {
                let list = &self.profiles[*slot];
                Some(&list[list.len() - 1])
            },
            None => None,
        }
    }
}

/// Recording appends to the profiles of its key and leaves the profiles of
/// every other key as they are: nothing is removed, and what came first
/// stays first.
pub proof fn lemma_record_appends(
    history: History,
    key: Seq<char>,
    profile: ChargeProfileView,
    other: Seq<char>,
)
    ensures
        profiles_of(recorded(history, key, profile), key) == profiles_of(history, key).push(
            profile,
        ),
        other != key ==> profiles_of(recorded(history, key, profile), other) == profiles_of(
            history,
            other,
        ),
        most_recent_of(recorded(history, key, profile), key) == Some(profile),
{
}

/// Every key of a store has at least one profile.
pub proof fn lemma_store_keys_have_profiles(store: HistoryStore, key: Seq<char>)
    requires
        store.wf(),
        store@.contains_key(key),
    ensures
        store@[key].len() > 0,
{
}

} // verus!
