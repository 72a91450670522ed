use vstd::prelude::*;
use crate::text::{folded, same_text_ignoring_case};

verus! {

/// One switch as it is held.
pub struct Switch {
    name: String,
    enabled: bool,
    ip: Option<String>,
    port: Option<u16>,
}

/// What is known of one switch: whether it is on, and where the peer that
/// asked for it last can be reached.
pub struct SwitchModel {
    pub enabled: bool,
    pub ip: Option<Seq<char>>,
    pub port: Option<u16>,
}

/// The table of switches. Names are told apart without regard to the case of
/// ASCII letters.
pub struct Switches {
    switches: Vec<Switch>,
}

/// The characters of a text that may be left out.
pub open spec fn text_of(text: Option<String>) -> Option<Seq<char>> {
    match text {
        Some(t) => Some(t@),
        None => None,
    }
}

/// Whether a table holds the switch of this name as on.
pub open spec fn enabled_in(table: Map<Seq<char>, SwitchModel>, name: Seq<char>) -> bool {
    table.contains_key(folded(name)) && table[folded(name)].enabled
}

/// A table after it was asked whether the switch of this name is on: the
/// switch stays as it was, or is made off, and the asker's address is
/// recorded with it.
pub open spec fn after_query(
    table: Map<Seq<char>, SwitchModel>,
    name: Seq<char>,
    ip: Option<Seq<char>>,
    port: Option<u16>,
) -> Map<Seq<char>, SwitchModel> {
    table.insert(folded(name), SwitchModel { enabled: enabled_in(table, name), ip, port })
}

/// The address recorded with the switch of this name.
pub open spec fn peer_in(table: Map<Seq<char>, SwitchModel>, name: Seq<char>) -> (
    Option<Seq<char>>,
    Option<u16>,
) {
    if table.contains_key(folded(name)) {
        (table[folded(name)].ip, table[folded(name)].port)
    } else {
        (None, None)
    }
}

/// A table after the switch of this name was turned on or off: the address
/// recorded with it stays.
pub open spec fn after_set(table: Map<Seq<char>, SwitchModel>, name: Seq<char>, value: bool) -> Map<
    Seq<char>,
    SwitchModel,
> {
    table.insert(
        folded(name),
        SwitchModel { enabled: value, ip: peer_in(table, name).0, port: peer_in(table, name).1 },
    )
}

/// Asking whether a switch is on changes the answer for no switch: asked
/// again, with no switch set in between, the same name gets the same answer.
pub proof fn lemma_query_keeps_answers(
    table: Map<Seq<char>, SwitchModel>,
    asked: Seq<char>,
    ip: Option<Seq<char>>,
    port: Option<u16>,
    name: Seq<char>,
)
    ensures
        enabled_in(after_query(table, asked, ip, port), name) == enabled_in(table, name),
        enabled_in(after_query(table, asked, ip, port), asked) == enabled_in(table, asked),
{
}

/// Setting a switch that the table does not hold makes it with the value
/// given; setting it again does not make it, and gives it the new value.
pub proof fn lemma_set_twice(
    table: Map<Seq<char>, SwitchModel>,
    name: Seq<char>,
    first: bool,
    second: bool,
)
    requires
        !table.contains_key(folded(name)),
    ensures
        enabled_in(after_set(table, name, first), name) == first,
        after_set(table, name, first).contains_key(folded(name)),
        enabled_in(after_set(after_set(table, name, first), name, second), name) == second,
{
}

impl Switch {
    spec fn model(self) -> SwitchModel {
        SwitchModel { enabled: self.enabled, ip: text_of(self.ip), port: self.port }
    }
}

/// The place of the first entry at or after `from` whose name is `key` once
/// folded, or the length of `entries` where there is none.
spec fn first_match(entries: Seq<Switch>, key: Seq<char>, from: int) -> int
    decreases entries.len() - from,
{
    if from < 0 || from >= entries.len() {
        entries.len() as int
    } else if folded(entries[from].name@) == key {
        from
    } else {
        first_match(entries, key, from + 1)
    }
}

spec fn table(entries: Seq<Switch>) -> Map<Seq<char>, SwitchModel> {
    Map::new(
        |key: Seq<char>| first_match(entries, key, 0) < entries.len(),
        |key: Seq<char>| entries[first_match(entries, key, 0)].model(),
    )
}

proof fn lemma_first_match_bounds(entries: Seq<Switch>, key: Seq<char>, from: int)
    requires
        0 <= from,
    ensures
        from <= first_match(entries, key, from) || first_match(entries, key, from) == entries.len(),
        first_match(entries, key, from) <= entries.len(),
        first_match(entries, key, from) < entries.len() ==> folded(
            entries[first_match(entries, key, from)].name@,
        ) == key,
    decreases entries.len() - from,
{
    if from < entries.len() && folded(entries[from].name@) != key {
        lemma_first_match_bounds(entries, key, from + 1);
    }
}

/// Changing what an entry holds, but not its name, moves no name.
proof fn lemma_first_match_same_names(a: Seq<Switch>, b: Seq<Switch>, key: Seq<char>, from: int)
    requires
        0 <= from,
        a.len() == b.len(),
        forall|i: int| 0 <= i < a.len() ==> a[i].name@ == b[i].name@,
    ensures
        first_match(a, key, from) == first_match(b, key, from),
    decreases a.len() - from,
{
    if from < a.len() && folded(a[from].name@) != key {
        lemma_first_match_same_names(a, b, key, from + 1);
    }
}

/// A new last entry is found under its own name where that name was not
/// held, and leaves every other name where it was.
proof fn lemma_first_match_push(entries: Seq<Switch>, entry: Switch, key: Seq<char>, from: int)
    requires
        0 <= from <= entries.len(),
    ensures
        first_match(entries, key, from) < entries.len() ==> first_match(
            entries.push(entry),
            key,
            from,
        ) == first_match(entries, key, from),
        first_match(entries, key, from) == entries.len() && folded(entry.name@) == key
            ==> first_match(entries.push(entry), key, from) == entries.len(),
        first_match(entries, key, from) == entries.len() && folded(entry.name@) != key
            ==> first_match(entries.push(entry), key, from) == entries.len() + 1,
    decreases entries.len() - from,
{
    let longer = entries.push(entry);
    if from < entries.len() {
        assert(longer[from] == entries[from]);
        if folded(entries[from].name@) != key {
            lemma_first_match_push(entries, entry, key, from + 1);
        }
    } else {
        assert(longer[from] == entry);
        if folded(entry.name@) != key {
            assert(first_match(longer, key, from + 1) == longer.len());
        }
    }
}

/// Putting new contents at the place where a name is found first changes
/// what the table holds under that name, and nothing else.
proof fn lemma_table_update(before: Seq<Switch>, i: int, held: Switch, key: Seq<char>)
    requires
        0 <= i < before.len(),
        first_match(before, key, 0) == i,
        held.name@ == before[i].name@,
    ensures
        table(before.update(i, held)) == table(before).insert(key, held.model()),
{
    let after = before.update(i, held);
    let wanted = table(before).insert(key, held.model());
    lemma_first_match_bounds(before, key, 0);
    assert forall|k: Seq<char>| #[trigger]
        table(after).dom().contains(k) == wanted.dom().contains(k) by {
        lemma_first_match_same_names(before, after, k, 0);
    }
    assert forall|k: Seq<char>| table(after).dom().contains(k) implies #[trigger] table(after)[k]
        == wanted[k] by {
        lemma_first_match_same_names(before, after, k, 0);
        lemma_first_match_bounds(before, k, 0);
    }
    assert(table(after) =~= wanted);
}

/// A new last entry under a name that was not held adds that name to the
/// table, and nothing else.
proof fn lemma_table_push(before: Seq<Switch>, fresh: Switch, key: Seq<char>)
    requires
        first_match(before, key, 0) == before.len(),
        folded(fresh.name@) == key,
    ensures
        table(before.push(fresh)) == table(before).insert(key, fresh.model()),
{
    let after = before.push(fresh);
    let wanted = table(before).insert(key, fresh.model());
    assert forall|k: Seq<char>| #[trigger]
        table(after).dom().contains(k) == wanted.dom().contains(k) by {
        lemma_first_match_bounds(before, k, 0);
        lemma_first_match_push(before, fresh, k, 0);
    }
    assert forall|k: Seq<char>| table(after).dom().contains(k) implies #[trigger] table(after)[k]
        == wanted[k] by {
        lemma_first_match_bounds(before, k, 0);
        lemma_first_match_push(before, fresh, k, 0);
    }
    assert(table(after) =~= wanted);
}

impl View for Switches {
    type V = Map<Seq<char>, SwitchModel>;

    closed spec fn view(&self) -> Map<Seq<char>, SwitchModel> {
        table(self.switches@)
    }
}

impl Switches {
    pub fn new() -> (switches: Switches)
        ensures
            switches@ == Map::<Seq<char>, SwitchModel>::empty(),
    {
        let switches = Switches { switches: Vec::new() };
        assert(switches@ =~= Map::<Seq<char>, SwitchModel>::empty());
        switches
    }

    fn find(&self, name: &str) -> (place: Option<usize>)
        ensures
            match place {
                Some(i) => i < self.switches.len() && first_match(
                    self.switches@,
                    folded(name@),
                    0,
                ) == i,
                None => first_match(self.switches@, folded(name@), 0) == self.switches.len(),
            },
    {
        let mut i: usize = 0;
        while i < self.switches.len()
            invariant
                i <= self.switches.len(),
                first_match(self.switches@, folded(name@), 0) == first_match(
                    self.switches@,
                    folded(name@),
                    i as int,
                ),
            decreases self.switches.len() - i,
        {
            if same_text_ignoring_case(self.switches[i].name.as_str(), name) {
                return Some(i);
            }
            i += 1;
        }
        None
    }

    /// Whether the switch of this name is on. The caller's address is
    /// recorded with the switch; a name not seen before gets a switch that is
    /// off.
    pub fn is_enabled(&mut self, name: &str, ip: &Option<String>, port: &Option<u16>) -> (enabled: bool)
        ensures
            enabled == enabled_in(old(self)@, name@),
            final(self)@ == after_query(old(self)@, name@, text_of(*ip), *port),
    {
        let ip = match ip {
            Some(text) => Some(text.clone()),
            None => None,
        };
        let port = *port;
        let ghost before = self.switches@;
        let ghost key = folded(name@);
        match self.find(name) {
            Some(i) => {
                let enabled = self.switches[i].enabled;
                let mut held = self.switches.remove(i);
                held.ip = ip;
                held.port = port;
                self.switches.insert(i, held);
                proof {
                    let after = self.switches@;
                    assert(after =~= before.update(i as int, held));
                    lemma_table_update(before, i as int, held, key);
                }
                enabled
            },
            None => {
                let fresh = Switch { name: name.to_owned(), enabled: false, ip, port };
                self.switches.push(fresh);
                proof {
                    let after = self.switches@;
                    assert(after == before.push(fresh));
                    lemma_table_push(before, fresh, key);
                }
                false
            },
        }
    }

    /// Turns the switch of this name on or off. Says whether the switch was
    /// made by this call, and where the peer recorded with it can be reached.
    pub fn set(&mut self, name: &str, value: bool) -> (r: (bool, Option<String>, Option<u16>))
        ensures
            r.0 == !old(self)@.contains_key(folded(name@)),
            (text_of(r.1), r.2) == peer_in(old(self)@, name@),
            final(self)@ == after_set(old(self)@, name@, value),
    {
        let ghost before = self.switches@;
        let ghost key = folded(name@);
        match self.find(name) {
            Some(i) => {
                let mut held = self.switches.remove(i);
                held.enabled = value;
                let ip = match &held.ip {
                    Some(text) => Some(text.clone()),
                    None => None,
                };
                let port = held.port;
                self.switches.insert(i, held);
                proof {
                    let after = self.switches@;
                    assert(after =~= before.update(i as int, held));
                    lemma_table_update(before, i as int, held, key);
                }
                (false, ip, port)
            },
            None => {
                let fresh = Switch { name: name.to_owned(), enabled: value, ip: None, port: None };
                self.switches.push(fresh);
                proof {
                    let after = self.switches@;
                    assert(after == before.push(fresh));
                    lemma_table_push(before, fresh, key);
                }
                (true, None, None)
            },
        }
    }
}

} // verus!
