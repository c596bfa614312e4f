//! The on-chain form of a gas schedule: an ordered list of (name, value)
//! pairs. Each parameter group is written as its names, a shared prefix
//! followed by a field name, paired with its values in a fixed order; it is
//! read back by looking every expected name up, and only when all are present.
use crate::params::{
    InstructionGasParameters, MiscGasParameters, MoveStdlibGasParameters, NativeGasParameters,
    NurseryGasParameters, StarcoinGasParameters, StarcoinNativesGasParameters, TableGasParameters,
    TransactionGasParameters,
};
use crate::names::{all_names, distinct, lemma_all_names_distinct, lemma_find_absent, lemma_find_written};
use vstd::prelude::*;

verus! {

/// One entry of an on-chain schedule.
pub type ScheduleEntry = (String, u64);

/// The entries of a schedule as (name, value) pairs of plain values.
pub open spec fn entries_view(s: Seq<ScheduleEntry>) -> Seq<(Seq<char>, u64)> {
    s.map_values(|e: ScheduleEntry| (e.0@, e.1))
}

/// Each field name with `prefix` in front of it.
pub open spec fn qualified(prefix: Seq<char>, fields: Seq<&'static str>) -> Seq<Seq<char>> {
    fields.map_values(|f: &'static str| prefix + f@)
}

/// The entries that pair `names[i]` with `values[i]`, in order.
pub open spec fn encode_spec(names: Seq<Seq<char>>, values: Seq<u64>) -> Seq<(Seq<char>, u64)> {
    Seq::new(names.len(), |i: int| (names[i], values[i]))
}

/// The value of the first entry at or after `i` whose name is `name`.
pub open spec fn find_from(s: Seq<(Seq<char>, u64)>, name: Seq<char>, i: int) -> Option<u64>
    decreases s.len() - i,
{
    if i < 0 || i >= s.len() {
        None
    } else if s[i].0 == name {
        Some(s[i].1)
    } else {
        find_from(s, name, i + 1)
    }
}

/// The value that `s` gives `name`: that of its first entry of that name.
pub open spec fn find(s: Seq<(Seq<char>, u64)>, name: Seq<char>) -> Option<u64> {
    find_from(s, name, 0)
}

/// Whether `s` gives a value to every one of `names`.
pub open spec fn all_present(s: Seq<(Seq<char>, u64)>, names: Seq<Seq<char>>) -> bool {
    forall|k: int| 0 <= k < names.len() ==> (#[trigger] find(s, names[k])) is Some
}

/// The values that `s` gives `names`, in the order of `names`; none unless
/// every name is present.
pub open spec fn decode_spec(s: Seq<(Seq<char>, u64)>, names: Seq<Seq<char>>) -> Option<Seq<u64>> {
    if all_present(s, names) {
        Some(Seq::new(names.len(), |k: int| find(s, names[k])->0))
    } else {
        None
    }
}

/// Looks `name` up in `schedule`, by name and not by position.
pub fn find_value(schedule: &Vec<ScheduleEntry>, name: &String) -> (r: Option<u64>)
    ensures
        r == find(entries_view(schedule@), name@),
{
    let ghost s = entries_view(schedule@);
    let mut i: usize = 0;
    while i < schedule.len()
        invariant
            0 <= i <= schedule.len(),
            s == entries_view(schedule@),
            find_from(s, name@, 0) == find_from(s, name@, i as int),
        decreases schedule.len() - i,
    {
        if schedule[i].0 == *name {
            return Some(schedule[i].1);
        }
        i = i + 1;
    }
    None
}

/// Appends the entries of one group: `prefix` and `fields[i]` as the name,
/// `values[i]` as the value.
pub fn encode_group(
    prefix: &str,
    fields: &Vec<&'static str>,
    values: &Vec<u64>,
    out: &mut Vec<ScheduleEntry>,
)
    requires
        fields.len() == values.len(),
    ensures
        entries_view(final(out)@) == entries_view(old(out)@) + encode_spec(
            qualified(prefix@, fields@),
            values@,
        ),
{
    let ghost start = entries_view(out@);
    let ghost names = qualified(prefix@, fields@);
    let mut i: usize = 0;
    while i < fields.len()
        invariant
            0 <= i <= fields.len(),
            fields.len() == values.len(),
            names == qualified(prefix@, fields@),
            entries_view(out@) == start + encode_spec(names, values@).take(i as int),
        decreases fields.len() - i,
    {
        let mut name = prefix.to_owned();
        name.append(fields[i]);
        assert(name@ == names[i as int]);
        let ghost prev = out@;
        out.push((name, values[i]));
        assert(entries_view(out@) =~= entries_view(prev).push((names[i as int], values@[i as int])));
        assert(entries_view(out@) =~= start + encode_spec(names, values@).take(i + 1));
        i = i + 1;
    }
    assert(encode_spec(names, values@).take(i as int) =~= encode_spec(names, values@));
}

/// Reads one group back: the value of every name `prefix` + `fields[k]`,
/// or none if any is missing.
pub fn decode_group(schedule: &Vec<ScheduleEntry>, prefix: &str, fields: &Vec<&'static str>) -> (r:
    Option<Vec<u64>>)
    ensures
        r is Some <==> decode_spec(entries_view(schedule@), qualified(prefix@, fields@)) is Some,
        r is Some ==> r->0@ == decode_spec(entries_view(schedule@), qualified(prefix@, fields@))->0,
{
    let ghost s = entries_view(schedule@);
    let ghost names = qualified(prefix@, fields@);
    let mut values: Vec<u64> = Vec::new();
    let mut i: usize = 0;
    while i < fields.len()
        invariant
            0 <= i <= fields.len(),
            s == entries_view(schedule@),
            names == qualified(prefix@, fields@),
            values.len() == i,
            forall|k: int| 0 <= k < i ==> find(s, names[k]) == Some(#[trigger] values@[k]),
        decreases fields.len() - i,
    {
        let mut name = prefix.to_owned();
        name.append(fields[i]);
        assert(name@ == names[i as int]);
        match find_value(schedule, &name) {
            Some(v) => {
                values.push(v);
            },
            None => {
                assert(!all_present(s, names));
                return None;
            },
        }
        i = i + 1;
    }
    assert(all_present(s, names)) by {
        assert forall|k: int| 0 <= k < names.len() implies (#[trigger] find(s, names[k])) is Some by {
            assert(find(s, names[k]) == Some(values@[k]));
        }
    }
    assert(values@ =~= decode_spec(s, names)->0);
    Some(values)
}

impl MiscGasParameters {
    /// Reads the group from `schedule`; none unless every name of the group
    /// is present.
    pub fn from_on_chain_gas_schedule(schedule: &Vec<ScheduleEntry>) -> (r: Option<Self>)
        ensures
            r is Some <==> decode_spec(entries_view(schedule@), Self::names()) is Some,
            r is Some ==> r->0.values() == decode_spec(entries_view(schedule@), Self::names())->0,
    {
        let fields = Self::field_name_list();
        match decode_group(schedule, "misc.abs_val.", &fields) {
            Some(v) => Some(Self::from_values(&v)),
            None => None,
        }
    }

    /// Appends the group's entries, in on-chain order, to `out`.
    pub fn append_on_chain_gas_schedule(&self, out: &mut Vec<ScheduleEntry>)
        ensures
            entries_view(final(out)@) == entries_view(old(out)@) + encode_spec(Self::names(), self.values()),
    {
        let fields = Self::field_name_list();
        let values = self.to_values();
        encode_group("misc.abs_val.", &fields, &values, out);
    }

    /// The group's entries in on-chain order.
    pub fn to_on_chain_gas_schedule(&self) -> (r: Vec<ScheduleEntry>)
        ensures
            entries_view(r@) == encode_spec(Self::names(), self.values()),
    {
        let mut r: Vec<ScheduleEntry> = Vec::new();
        self.append_on_chain_gas_schedule(&mut r);
        assert(entries_view(r@) =~= Seq::<(Seq<char>, u64)>::empty() + encode_spec(Self::names(), self.values()));
        r
    }
}

impl InstructionGasParameters {
    /// Reads the group from `schedule`; none unless every name of the group
    /// is present.
    pub fn from_on_chain_gas_schedule(schedule: &Vec<ScheduleEntry>) -> (r: Option<Self>)
        ensures
            r is Some <==> decode_spec(entries_view(schedule@), Self::names()) is Some,
            r is Some ==> r->0.values() == decode_spec(entries_view(schedule@), Self::names())->0,
    {
        let fields = Self::field_name_list();
        match decode_group(schedule, "instr.", &fields) {
            Some(v) => Some(Self::from_values(&v)),
            None => None,
        }
    }

    /// Appends the group's entries, in on-chain order, to `out`.
    pub fn append_on_chain_gas_schedule(&self, out: &mut Vec<ScheduleEntry>)
        ensures
            entries_view(final(out)@) == entries_view(old(out)@) + encode_spec(Self::names(), self.values()),
    {
        let fields = Self::field_name_list();
        let values = self.to_values();
        encode_group("instr.", &fields, &values, out);
    }

    /// The group's entries in on-chain order.
    pub fn to_on_chain_gas_schedule(&self) -> (r: Vec<ScheduleEntry>)
        ensures
            entries_view(r@) == encode_spec(Self::names(), self.values()),
    {
        let mut r: Vec<ScheduleEntry> = Vec::new();
        self.append_on_chain_gas_schedule(&mut r);
        assert(entries_view(r@) =~= Seq::<(Seq<char>, u64)>::empty() + encode_spec(Self::names(), self.values()));
        r
    }
}

impl TransactionGasParameters {
    /// Reads the group from `schedule`; none unless every name of the group
    /// is present.
    pub fn from_on_chain_gas_schedule(schedule: &Vec<ScheduleEntry>) -> (r: Option<Self>)
        ensures
            r is Some <==> decode_spec(entries_view(schedule@), Self::names()) is Some,
            r is Some ==> r->0.values() == decode_spec(entries_view(schedule@), Self::names())->0,
    {
        let fields = Self::field_name_list();
        match decode_group(schedule, "txn.", &fields) {
            Some(v) => Some(Self::from_values(&v)),
            None => None,
        }
    }

    /// Appends the group's entries, in on-chain order, to `out`.
    pub fn append_on_chain_gas_schedule(&self, out: &mut Vec<ScheduleEntry>)
        ensures
            entries_view(final(out)@) == entries_view(old(out)@) + encode_spec(Self::names(), self.values()),
    {
        let fields = Self::field_name_list();
        let values = self.to_values();
        encode_group("txn.", &fields, &values, out);
    }

    /// The group's entries in on-chain order.
    pub fn to_on_chain_gas_schedule(&self) -> (r: Vec<ScheduleEntry>)
        ensures
            entries_view(r@) == encode_spec(Self::names(), self.values()),
    {
        let mut r: Vec<ScheduleEntry> = Vec::new();
        self.append_on_chain_gas_schedule(&mut r);
        assert(entries_view(r@) =~= Seq::<(Seq<char>, u64)>::empty() + encode_spec(Self::names(), self.values()));
        r
    }
}

impl MoveStdlibGasParameters {
    /// Reads the group from `schedule`; none unless every name of the group
    /// is present.
    pub fn from_on_chain_gas_schedule(schedule: &Vec<ScheduleEntry>) -> (r: Option<Self>)
        ensures
            r is Some <==> decode_spec(entries_view(schedule@), Self::names()) is Some,
            r is Some ==> r->0.values() == decode_spec(entries_view(schedule@), Self::names())->0,
    {
        let fields = Self::field_name_list();
        match decode_group(schedule, "move_stdlib.", &fields) {
            Some(v) => Some(Self::from_values(&v)),
            None => None,
        }
    }

    /// Appends the group's entries, in on-chain order, to `out`.
    pub fn append_on_chain_gas_schedule(&self, out: &mut Vec<ScheduleEntry>)
        ensures
            entries_view(final(out)@) == entries_view(old(out)@) + encode_spec(Self::names(), self.values()),
    {
        let fields = Self::field_name_list();
        let values = self.to_values();
        encode_group("move_stdlib.", &fields, &values, out);
    }

    /// The group's entries in on-chain order.
    pub fn to_on_chain_gas_schedule(&self) -> (r: Vec<ScheduleEntry>)
        ensures
            entries_view(r@) == encode_spec(Self::names(), self.values()),
    {
        let mut r: Vec<ScheduleEntry> = Vec::new();
        self.append_on_chain_gas_schedule(&mut r);
        assert(entries_view(r@) =~= Seq::<(Seq<char>, u64)>::empty() + encode_spec(Self::names(), self.values()));
        r
    }
}

impl NurseryGasParameters {
    /// Reads the group from `schedule`; none unless every name of the group
    /// is present.
    pub fn from_on_chain_gas_schedule(schedule: &Vec<ScheduleEntry>) -> (r: Option<Self>)
        ensures
            r is Some <==> decode_spec(entries_view(schedule@), Self::names()) is Some,
            r is Some ==> r->0.values() == decode_spec(entries_view(schedule@), Self::names())->0,
    {
        let fields = Self::field_name_list();
        match decode_group(schedule, "nursery.", &fields) {
            Some(v) => Some(Self::from_values(&v)),
            None => None,
        }
    }

    /// Appends the group's entries, in on-chain order, to `out`.
    pub fn append_on_chain_gas_schedule(&self, out: &mut Vec<ScheduleEntry>)
        ensures
            entries_view(final(out)@) == entries_view(old(out)@) + encode_spec(Self::names(), self.values()),
    {
        let fields = Self::field_name_list();
        let values = self.to_values();
        encode_group("nursery.", &fields, &values, out);
    }

    /// The group's entries in on-chain order.
    pub fn to_on_chain_gas_schedule(&self) -> (r: Vec<ScheduleEntry>)
        ensures
            entries_view(r@) == encode_spec(Self::names(), self.values()),
    {
        let mut r: Vec<ScheduleEntry> = Vec::new();
        self.append_on_chain_gas_schedule(&mut r);
        assert(entries_view(r@) =~= Seq::<(Seq<char>, u64)>::empty() + encode_spec(Self::names(), self.values()));
        r
    }
}

impl StarcoinNativesGasParameters {
    /// Reads the group from `schedule`; none unless every name of the group
    /// is present.
    pub fn from_on_chain_gas_schedule(schedule: &Vec<ScheduleEntry>) -> (r: Option<Self>)
        ensures
            r is Some <==> decode_spec(entries_view(schedule@), Self::names()) is Some,
            r is Some ==> r->0.values() == decode_spec(entries_view(schedule@), Self::names())->0,
    {
        let fields = Self::field_name_list();
        match decode_group(schedule, "starcoin_natives.", &fields) {
            Some(v) => Some(Self::from_values(&v)),
            None => None,
        }
    }

    /// Appends the group's entries, in on-chain order, to `out`.
    pub fn append_on_chain_gas_schedule(&self, out: &mut Vec<ScheduleEntry>)
        ensures
            entries_view(final(out)@) == entries_view(old(out)@) + encode_spec(Self::names(), self.values()),
    {
        let fields = Self::field_name_list();
        let values = self.to_values();
        encode_group("starcoin_natives.", &fields, &values, out);
    }

    /// The group's entries in on-chain order.
    pub fn to_on_chain_gas_schedule(&self) -> (r: Vec<ScheduleEntry>)
        ensures
            entries_view(r@) == encode_spec(Self::names(), self.values()),
    {
        let mut r: Vec<ScheduleEntry> = Vec::new();
        self.append_on_chain_gas_schedule(&mut r);
        assert(entries_view(r@) =~= Seq::<(Seq<char>, u64)>::empty() + encode_spec(Self::names(), self.values()));
        r
    }
}

impl TableGasParameters {
    /// Reads the group from `schedule`; none unless every name of the group
    /// is present.
    pub fn from_on_chain_gas_schedule(schedule: &Vec<ScheduleEntry>) -> (r: Option<Self>)
        ensures
            r is Some <==> decode_spec(entries_view(schedule@), Self::names()) is Some,
            r is Some ==> r->0.values() == decode_spec(entries_view(schedule@), Self::names())->0,
    {
        let fields = Self::field_name_list();
        match decode_group(schedule, "table.", &fields) {
            Some(v) => Some(Self::from_values(&v)),
            None => None,
        }
    }

    /// Appends the group's entries, in on-chain order, to `out`.
    pub fn append_on_chain_gas_schedule(&self, out: &mut Vec<ScheduleEntry>)
        ensures
            entries_view(final(out)@) == entries_view(old(out)@) + encode_spec(Self::names(), self.values()),
    {
        let fields = Self::field_name_list();
        let values = self.to_values();
        encode_group("table.", &fields, &values, out);
    }

    /// The group's entries in on-chain order.
    pub fn to_on_chain_gas_schedule(&self) -> (r: Vec<ScheduleEntry>)
        ensures
            entries_view(r@) == encode_spec(Self::names(), self.values()),
    {
        let mut r: Vec<ScheduleEntry> = Vec::new();
        self.append_on_chain_gas_schedule(&mut r);
        assert(entries_view(r@) =~= Seq::<(Seq<char>, u64)>::empty() + encode_spec(Self::names(), self.values()));
        r
    }
}

/// Encoding two lists of names one after the other gives the two encodings
/// one after the other.
pub proof fn lemma_encode_concat(a: Seq<Seq<char>>, va: Seq<u64>, b: Seq<Seq<char>>, vb: Seq<u64>)
    requires
        a.len() == va.len(),
        b.len() == vb.len(),
    ensures
        encode_spec(a + b, va + vb) == encode_spec(a, va) + encode_spec(b, vb),
{
    assert(encode_spec(a + b, va + vb) =~= encode_spec(a, va) + encode_spec(b, vb));
}

/// Decoding two lists of names one after the other succeeds when both
/// succeed, and gives the two results one after the other.
pub proof fn lemma_decode_concat(s: Seq<(Seq<char>, u64)>, a: Seq<Seq<char>>, b: Seq<Seq<char>>)
    ensures
        decode_spec(s, a + b) is Some <==> (decode_spec(s, a) is Some && decode_spec(s, b) is Some),
        decode_spec(s, a + b) is Some ==> decode_spec(s, a + b)->0 == decode_spec(s, a)->0 + decode_spec(
            s,
            b,
        )->0,
{
    let ab = a + b;
    if all_present(s, ab) {
        assert forall|k: int| 0 <= k < a.len() implies (#[trigger] find(s, a[k])) is Some by {
            assert(ab[k] == a[k]);
        }
        assert forall|k: int| 0 <= k < b.len() implies (#[trigger] find(s, b[k])) is Some by {
            assert(ab[a.len() + k] == b[k]);
        }
        assert(decode_spec(s, ab)->0 =~= decode_spec(s, a)->0 + decode_spec(s, b)->0);
    }
    if all_present(s, a) && all_present(s, b) {
        assert forall|k: int| 0 <= k < ab.len() implies (#[trigger] find(s, ab[k])) is Some by {
            if k < a.len() {
                assert(find(s, a[k]) is Some);
            } else {
                assert(find(s, b[k - a.len()]) is Some);
            }
        }
    }
}

impl NativeGasParameters {
    /// Reads every library's group from `schedule`; none unless all succeed.
    pub fn from_on_chain_gas_schedule(schedule: &Vec<ScheduleEntry>) -> (r: Option<Self>)
        ensures
            r is Some <==> decode_spec(entries_view(schedule@), Self::names()) is Some,
            r is Some ==> r->0.values() == decode_spec(entries_view(schedule@), Self::names())->0,
    {
        let ghost s = entries_view(schedule@);
        proof {
            let m = MoveStdlibGasParameters::names();
            let n = NurseryGasParameters::names();
            let c = StarcoinNativesGasParameters::names();
            let t = TableGasParameters::names();
            lemma_decode_concat(s, m, n);
            lemma_decode_concat(s, m + n, c);
            lemma_decode_concat(s, m + n + c, t);
        }
        let move_stdlib = match MoveStdlibGasParameters::from_on_chain_gas_schedule(schedule) {
            Some(g) => g,
            None => return None,
        };
        let nursery = match NurseryGasParameters::from_on_chain_gas_schedule(schedule) {
            Some(g) => g,
            None => return None,
        };
        let starcoin_natives = match StarcoinNativesGasParameters::from_on_chain_gas_schedule(schedule) {
            Some(g) => g,
            None => return None,
        };
        let table = match TableGasParameters::from_on_chain_gas_schedule(schedule) {
            Some(g) => g,
            None => return None,
        };
        Some(NativeGasParameters { move_stdlib, nursery, starcoin_natives, table })
    }

    /// Appends every library's entries, in library order, to `out`.
    pub fn append_on_chain_gas_schedule(&self, out: &mut Vec<ScheduleEntry>)
        ensures
            entries_view(final(out)@) == entries_view(old(out)@) + encode_spec(Self::names(), self.values()),
    {
        proof {
            let m = MoveStdlibGasParameters::names();
            let n = NurseryGasParameters::names();
            let c = StarcoinNativesGasParameters::names();
            let t = TableGasParameters::names();
            let vm = self.move_stdlib.values();
            let vn = self.nursery.values();
            let vc = self.starcoin_natives.values();
            let vt = self.table.values();
            lemma_encode_concat(m, vm, n, vn);
            lemma_encode_concat(m + n, vm + vn, c, vc);
            lemma_encode_concat(m + n + c, vm + vn + vc, t, vt);
        }
        let ghost start = entries_view(out@);
        self.move_stdlib.append_on_chain_gas_schedule(out);
        self.nursery.append_on_chain_gas_schedule(out);
        self.starcoin_natives.append_on_chain_gas_schedule(out);
        self.table.append_on_chain_gas_schedule(out);
        assert(entries_view(out@) =~= start + encode_spec(Self::names(), self.values()));
    }

    /// Every library's entries in library order.
    pub fn to_on_chain_gas_schedule(&self) -> (r: Vec<ScheduleEntry>)
        ensures
            entries_view(r@) == encode_spec(Self::names(), self.values()),
    {
        let mut r: Vec<ScheduleEntry> = Vec::new();
        self.append_on_chain_gas_schedule(&mut r);
        assert(entries_view(r@) =~= Seq::<(Seq<char>, u64)>::empty() + encode_spec(Self::names(), self.values()));
        r
    }
}

/// The on-chain entries of a full parameter set: instructions, then
/// transactions, then natives. The miscellaneous group is not written.
pub open spec fn schedule_of(p: StarcoinGasParameters) -> Seq<(Seq<char>, u64)> {
    encode_spec(InstructionGasParameters::names(), p.instr.values()) + encode_spec(
        TransactionGasParameters::names(),
        p.txn.values(),
    ) + encode_spec(NativeGasParameters::names(), p.natives.values())
}

/// Whether `s` holds every name of every group, the miscellaneous one
/// included.
pub open spec fn decodes(s: Seq<(Seq<char>, u64)>) -> bool {
    &&& decode_spec(s, MiscGasParameters::names()) is Some
    &&& decode_spec(s, NativeGasParameters::names()) is Some
    &&& decode_spec(s, InstructionGasParameters::names()) is Some
    &&& decode_spec(s, TransactionGasParameters::names()) is Some
}

/// Whether `p` holds, group by group, the values that `s` gives.
pub open spec fn decoded_from(p: StarcoinGasParameters, s: Seq<(Seq<char>, u64)>) -> bool {
    &&& p.misc.values() == decode_spec(s, MiscGasParameters::names())->0
    &&& p.natives.values() == decode_spec(s, NativeGasParameters::names())->0
    &&& p.instr.values() == decode_spec(s, InstructionGasParameters::names())->0
    &&& p.txn.values() == decode_spec(s, TransactionGasParameters::names())->0
}

impl StarcoinGasParameters {
    /// Reads a full parameter set from `schedule`; none unless every group,
    /// the miscellaneous one included, finds all of its names.
    pub fn from_on_chain_gas_schedule(schedule: &Vec<ScheduleEntry>) -> (r: Option<Self>)
        ensures
            r is Some <==> decodes(entries_view(schedule@)),
            r is Some ==> decoded_from(r->0, entries_view(schedule@)),
    {
        let misc = match MiscGasParameters::from_on_chain_gas_schedule(schedule) {
            Some(g) => g,
            None => return None,
        };
        let natives = match NativeGasParameters::from_on_chain_gas_schedule(schedule) {
            Some(g) => g,
            None => return None,
        };
        let instr = match InstructionGasParameters::from_on_chain_gas_schedule(schedule) {
            Some(g) => g,
            None => return None,
        };
        let txn = match TransactionGasParameters::from_on_chain_gas_schedule(schedule) {
            Some(g) => g,
            None => return None,
        };
        Some(StarcoinGasParameters { misc, instr, txn, natives })
    }

    /// The on-chain entries: instructions, then transactions, then natives.
    pub fn to_on_chain_gas_schedule(&self) -> (r: Vec<ScheduleEntry>)
        ensures
            entries_view(r@) == schedule_of(*self),
    {
        let mut r: Vec<ScheduleEntry> = Vec::new();
        self.instr.append_on_chain_gas_schedule(&mut r);
        self.txn.append_on_chain_gas_schedule(&mut r);
        self.natives.append_on_chain_gas_schedule(&mut r);
        assert(entries_view(r@) =~= schedule_of(*self));
        r
    }
}

/// The entries written for `p`, followed by those of its miscellaneous
/// group.
pub open spec fn full_schedule_of(p: StarcoinGasParameters) -> Seq<(Seq<char>, u64)> {
    schedule_of(p) + encode_spec(MiscGasParameters::names(), p.misc.values())
}

/// Every value of `p`, in the order of `all_names`.
pub open spec fn all_values(p: StarcoinGasParameters) -> Seq<u64> {
    p.instr.values() + p.txn.values() + p.natives.values() + p.misc.values()
}

proof fn lemma_full_schedule(p: StarcoinGasParameters)
    ensures
        all_names().len() == all_values(p).len(),
        full_schedule_of(p) == encode_spec(all_names(), all_values(p)),
        schedule_of(p) == encode_spec(
            InstructionGasParameters::names() + TransactionGasParameters::names()
                + NativeGasParameters::names(),
            p.instr.values() + p.txn.values() + p.natives.values(),
        ),
{
    let (i, vi) = (InstructionGasParameters::names(), p.instr.values());
    let (t, vt) = (TransactionGasParameters::names(), p.txn.values());
    let (n, vn) = (NativeGasParameters::names(), p.natives.values());
    let (x, vx) = (MiscGasParameters::names(), p.misc.values());
    lemma_encode_concat(i, vi, t, vt);
    lemma_encode_concat(i + t, vi + vt, n, vn);
    lemma_encode_concat(i + t + n, vi + vt + vn, x, vx);
}

/// Reading a group whose names and values stand at `offset` of entries
/// written from distinct names gives back exactly those values.
proof fn lemma_decode_written_slice(
    names: Seq<Seq<char>>,
    values: Seq<u64>,
    offset: int,
    group: Seq<Seq<char>>,
    group_values: Seq<u64>,
)
    requires
        names.len() == values.len(),
        distinct(names),
        group.len() == group_values.len(),
        0 <= offset,
        offset + group.len() <= names.len(),
        forall|j: int| 0 <= j < group.len() ==> names[offset + j] == #[trigger] group[j],
        forall|j: int| 0 <= j < group.len() ==> values[offset + j] == #[trigger] group_values[j],
    ensures
        decode_spec(encode_spec(names, values), group) == Some(group_values),
{
    let s = encode_spec(names, values);
    assert forall|j: int| 0 <= j < group.len() implies (#[trigger] find(s, group[j])) == Some(
        group_values[j],
    ) by {
        lemma_find_written(names, values, offset + j);
    }
    assert(all_present(s, group));
    assert(decode_spec(s, group)->0 =~= group_values);
}

/// Writing a parameter set together with its miscellaneous group (which
/// `to_on_chain_gas_schedule` leaves out) and reading the entries back
/// succeeds and gives every group's values again; the parameters read back
/// therefore write exactly the same entries, names, values and order.
pub proof fn lemma_schedule_round_trip(p: StarcoinGasParameters, q: StarcoinGasParameters)
    ensures
        decodes(full_schedule_of(p)),
        decoded_from(q, full_schedule_of(p)) ==> schedule_of(q) == schedule_of(p),
{
    lemma_all_names_distinct();
    lemma_full_schedule(p);
    let names = all_names();
    let values = all_values(p);
    let (i, vi) = (InstructionGasParameters::names(), p.instr.values());
    let (t, vt) = (TransactionGasParameters::names(), p.txn.values());
    let (n, vn) = (NativeGasParameters::names(), p.natives.values());
    let (x, vx) = (MiscGasParameters::names(), p.misc.values());
    lemma_decode_written_slice(names, values, 0, i, vi);
    lemma_decode_written_slice(names, values, i.len() as int, t, vt);
    lemma_decode_written_slice(names, values, (i.len() + t.len()) as int, n, vn);
    lemma_decode_written_slice(names, values, (i.len() + t.len() + n.len()) as int, x, vx);
}

/// The entries `to_on_chain_gas_schedule` writes never read back on their
/// own: reading needs the miscellaneous group, which writing leaves out.
pub proof fn lemma_schedule_lacks_misc(p: StarcoinGasParameters)
    ensures
        !decodes(schedule_of(p)),
{
    lemma_all_names_distinct();
    lemma_full_schedule(p);
    let written = InstructionGasParameters::names() + TransactionGasParameters::names()
        + NativeGasParameters::names();
    let x = MiscGasParameters::names();
    let s = schedule_of(p);
    assert(all_names() == written + x);
    assert forall|k: int| 0 <= k < written.len() implies #[trigger] written[k] != x[0] by {
        assert(all_names()[k] == written[k]);
        assert(all_names()[written.len() as int] == x[0]);
    }
    lemma_find_absent(written, p.instr.values() + p.txn.values() + p.natives.values(), x[0], 0);
    assert(find(s, x[0]) is None);
    assert(!all_present(s, x));
}

} // verus!
