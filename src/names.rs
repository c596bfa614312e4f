//! Every on-chain name is distinct, so looking a name up in written entries
//! finds the entry that was written for it. Within a group the field names
//! are in strictly increasing dictionary order; across groups the prefixes
//! differ.
use crate::schedule::{encode_spec, find, find_from, qualified};
use crate::params::{
    InstructionGasParameters, MiscGasParameters, MoveStdlibGasParameters, NativeGasParameters,
    NurseryGasParameters, StarcoinNativesGasParameters, TableGasParameters, TransactionGasParameters,
};
use vstd::prelude::*;

verus! {

/// `a` comes strictly before `b` in dictionary order: they agree up to some
/// position where `a` ends, or has the smaller character, and `b` goes on.
pub open spec fn precedes(a: Seq<char>, b: Seq<char>) -> bool {
    exists|k: int|
        0 <= k <= a.len() && k < b.len() && #[trigger] a.subrange(0, k) == b.subrange(0, k) && (k
            == a.len() || (a[k] as u32) < (b[k] as u32))
}

/// Each of `s` comes strictly before the next.
pub open spec fn sorted(s: Seq<Seq<char>>) -> bool {
    forall|i: int| 0 <= i < s.len() - 1 ==> precedes(#[trigger] s[i], s[i + 1])
}

/// No two of `s` are equal.
pub open spec fn distinct(s: Seq<Seq<char>>) -> bool {
    forall|i: int, j: int| 0 <= i < s.len() && 0 <= j < s.len() && i != j ==> #[trigger] s[i] != #[trigger] s[j]
}

/// The texts of `s`.
pub open spec fn texts(s: Seq<&'static str>) -> Seq<Seq<char>> {
    s.map_values(|f: &'static str| f@)
}

pub proof fn lemma_precedes_at(a: Seq<char>, b: Seq<char>, k: int)
    requires
        0 <= k <= a.len(),
        k < b.len(),
        a.subrange(0, k) == b.subrange(0, k),
        k == a.len() || (a[k] as u32) < (b[k] as u32),
    ensures
        precedes(a, b),
{
}

pub proof fn lemma_precedes_transitive(a: Seq<char>, b: Seq<char>, c: Seq<char>)
    requires
        precedes(a, b),
        precedes(b, c),
    ensures
        precedes(a, c),
{
    let k1 = choose|k: int|
        0 <= k <= a.len() && k < b.len() && #[trigger] a.subrange(0, k) == b.subrange(0, k) && (k
            == a.len() || (a[k] as u32) < (b[k] as u32));
    let k2 = choose|k: int|
        0 <= k <= b.len() && k < c.len() && #[trigger] b.subrange(0, k) == c.subrange(0, k) && (k
            == b.len() || (b[k] as u32) < (c[k] as u32));
    let k = if k1 < k2 { k1 } else { k2 };
    assert(a.subrange(0, k) =~= c.subrange(0, k)) by {
        assert forall|i: int| 0 <= i < k implies a[i] == c[i] by {
            assert(a.subrange(0, k1)[i] == b.subrange(0, k1)[i]);
            assert(b.subrange(0, k2)[i] == c.subrange(0, k2)[i]);
        }
    }
    if k1 < k2 {
        assert(b.subrange(0, k2)[k1] == c.subrange(0, k2)[k1]);
    } else if k2 < k1 {
        assert(a.subrange(0, k1)[k2] == b.subrange(0, k1)[k2]);
    }
    lemma_precedes_at(a, c, k);
}

pub proof fn lemma_precedes_differ(a: Seq<char>, b: Seq<char>)
    requires
        precedes(a, b),
    ensures
        a != b,
{
}

/// A sorted list has no repeats.
pub proof fn lemma_sorted_distinct(s: Seq<Seq<char>>)
    requires
        sorted(s),
    ensures
        distinct(s),
{
    assert forall|i: int, j: int| 0 <= i < s.len() && 0 <= j < s.len() && i != j implies #[trigger] s[i]
        != #[trigger] s[j] by {
        if i < j {
            lemma_sorted_precedes(s, i, j);
            lemma_precedes_differ(s[i], s[j]);
        } else {
            lemma_sorted_precedes(s, j, i);
            lemma_precedes_differ(s[j], s[i]);
        }
    }
}

proof fn lemma_sorted_precedes(s: Seq<Seq<char>>, i: int, j: int)
    requires
        sorted(s),
        0 <= i < j < s.len(),
    ensures
        precedes(s[i], s[j]),
    decreases j - i,
{
    if i + 1 < j {
        lemma_sorted_precedes(s, i, j - 1);
        lemma_precedes_transitive(s[i], s[j - 1], s[j]);
    } else {
        assert(precedes(s[i], s[i + 1]));
    }
}

/// Putting one prefix in front of distinct texts keeps them distinct.
pub proof fn lemma_qualified_distinct(prefix: Seq<char>, fields: Seq<&'static str>)
    requires
        distinct(texts(fields)),
    ensures
        distinct(qualified(prefix, fields)),
{
    let q = qualified(prefix, fields);
    assert forall|i: int, j: int| 0 <= i < q.len() && 0 <= j < q.len() && i != j implies #[trigger] q[i]
        != #[trigger] q[j] by {
        if q[i] == q[j] {
            assert(q[i].subrange(prefix.len() as int, q[i].len() as int) =~= texts(fields)[i]);
            assert(q[j].subrange(prefix.len() as int, q[j].len() as int) =~= texts(fields)[j]);
        }
    }
}

/// Names behind prefixes that differ at position `k` never meet.
pub proof fn lemma_prefixes_apart(p: Seq<char>, f: Seq<&'static str>, q: Seq<char>, g: Seq<&'static str>, k: int)
    requires
        0 <= k < p.len(),
        k < q.len(),
        p[k] != q[k],
    ensures
        forall|i: int, j: int|
            0 <= i < f.len() && 0 <= j < g.len() ==> #[trigger] qualified(p, f)[i] != #[trigger] qualified(q, g)[j],
{
    assert forall|i: int, j: int| 0 <= i < f.len() && 0 <= j < g.len() implies #[trigger] qualified(p, f)[i]
        != #[trigger] qualified(q, g)[j] by {
        assert(qualified(p, f)[i][k] == p[k]);
        assert(qualified(q, g)[j][k] == q[k]);
    }
}

/// Two distinct lists with nothing in common make a distinct list.
pub proof fn lemma_concat_distinct(a: Seq<Seq<char>>, b: Seq<Seq<char>>)
    requires
        distinct(a),
        distinct(b),
        forall|i: int, j: int| 0 <= i < a.len() && 0 <= j < b.len() ==> #[trigger] a[i] != #[trigger] b[j],
    ensures
        distinct(a + b),
{
    let ab = a + b;
    assert forall|i: int, j: int| 0 <= i < ab.len() && 0 <= j < ab.len() && i != j implies #[trigger] ab[i]
        != #[trigger] ab[j] by {
        if i < a.len() && j >= a.len() {
            assert(ab[j] == b[j - a.len()]);
        } else if j < a.len() && i >= a.len() {
            assert(ab[i] == b[i - a.len()]);
        } else if i >= a.len() {
            assert(ab[i] == b[i - a.len()]);
            assert(ab[j] == b[j - a.len()]);
        }
    }
}

/// In entries written from distinct names, each name finds its own value.
pub proof fn lemma_find_written(names: Seq<Seq<char>>, values: Seq<u64>, k: int)
    requires
        names.len() == values.len(),
        distinct(names),
        0 <= k < names.len(),
    ensures
        find(encode_spec(names, values), names[k]) == Some(values[k]),
{
    lemma_find_written_from(names, values, k, 0);
}

proof fn lemma_find_written_from(names: Seq<Seq<char>>, values: Seq<u64>, k: int, i: int)
    requires
        names.len() == values.len(),
        distinct(names),
        0 <= i <= k < names.len(),
    ensures
        find_from(encode_spec(names, values), names[k], i) == Some(values[k]),
    decreases k - i,
{
    if i < k {
        lemma_find_written_from(names, values, k, i + 1);
    }
}

impl MiscGasParameters {
    /// The field names are in strictly increasing dictionary order.
    pub proof fn lemma_field_names_sorted()
        ensures
            sorted(texts(Self::field_names())),
    {
        let t = texts(Self::field_names());
        assert forall|i: int| 0 <= i < t.len() - 1 implies precedes(#[trigger] t[i], t[i + 1]) by {
            if i == 0 {
                reveal_strlit("address");
                reveal_strlit("bool");
                assert("address"@.subrange(0, 0) =~= "bool"@.subrange(0, 0));
                lemma_precedes_at("address"@, "bool"@, 0);
            } else if i == 1 {
                reveal_strlit("bool");
                reveal_strlit("reference");
                assert("bool"@.subrange(0, 0) =~= "reference"@.subrange(0, 0));
                lemma_precedes_at("bool"@, "reference"@, 0);
            } else if i == 2 {
                reveal_strlit("reference");
                reveal_strlit("struct");
                assert("reference"@.subrange(0, 0) =~= "struct"@.subrange(0, 0));
                lemma_precedes_at("reference"@, "struct"@, 0);
            } else if i == 3 {
                reveal_strlit("struct");
                reveal_strlit("u128");
                assert("struct"@.subrange(0, 0) =~= "u128"@.subrange(0, 0));
                lemma_precedes_at("struct"@, "u128"@, 0);
            } else if i == 4 {
                reveal_strlit("u128");
                reveal_strlit("u64");
                assert("u128"@.subrange(0, 1) =~= "u64"@.subrange(0, 1));
                lemma_precedes_at("u128"@, "u64"@, 1);
            } else if i == 5 {
                reveal_strlit("u64");
                reveal_strlit("u8");
                assert("u64"@.subrange(0, 1) =~= "u8"@.subrange(0, 1));
                lemma_precedes_at("u64"@, "u8"@, 1);
            } else if i == 6 {
                reveal_strlit("u8");
                reveal_strlit("vector");
                assert("u8"@.subrange(0, 0) =~= "vector"@.subrange(0, 0));
                lemma_precedes_at("u8"@, "vector"@, 0);
            }
        }
    }
}

impl InstructionGasParameters {
    /// The field names are in strictly increasing dictionary order.
    pub proof fn lemma_field_names_sorted()
        ensures
            sorted(texts(Self::field_names())),
    {
        let t = texts(Self::field_names());
        assert forall|i: int| 0 <= i < t.len() - 1 implies precedes(#[trigger] t[i], t[i + 1]) by {
            if i == 0 {
                reveal_strlit("abort");
                reveal_strlit("add");
                assert("abort"@.subrange(0, 1) =~= "add"@.subrange(0, 1));
                lemma_precedes_at("abort"@, "add"@, 1);
            } else if i == 1 {
                reveal_strlit("add");
                reveal_strlit("and");
                assert("add"@.subrange(0, 1) =~= "and"@.subrange(0, 1));
                lemma_precedes_at("add"@, "and"@, 1);
            } else if i == 2 {
                reveal_strlit("and");
                reveal_strlit("bit_and");
                assert("and"@.subrange(0, 0) =~= "bit_and"@.subrange(0, 0));
                lemma_precedes_at("and"@, "bit_and"@, 0);
            } else if i == 3 {
                reveal_strlit("bit_and");
                reveal_strlit("bit_or");
                assert("bit_and"@.subrange(0, 4) =~= "bit_or"@.subrange(0, 4));
                lemma_precedes_at("bit_and"@, "bit_or"@, 4);
            } else if i == 4 {
                reveal_strlit("bit_or");
                reveal_strlit("br_false");
                assert("bit_or"@.subrange(0, 1) =~= "br_false"@.subrange(0, 1));
                lemma_precedes_at("bit_or"@, "br_false"@, 1);
            } else if i == 5 {
                reveal_strlit("br_false");
                reveal_strlit("br_true");
                assert("br_false"@.subrange(0, 3) =~= "br_true"@.subrange(0, 3));
                lemma_precedes_at("br_false"@, "br_true"@, 3);
            } else if i == 6 {
                reveal_strlit("br_true");
                reveal_strlit("branch");
                assert("br_true"@.subrange(0, 2) =~= "branch"@.subrange(0, 2));
                lemma_precedes_at("br_true"@, "branch"@, 2);
            } else if i == 7 {
                reveal_strlit("branch");
                reveal_strlit("call_generic_per_arg");
                assert("branch"@.subrange(0, 0) =~= "call_generic_per_arg"@.subrange(0, 0));
                lemma_precedes_at("branch"@, "call_generic_per_arg"@, 0);
            } else if i == 8 {
                reveal_strlit("call_generic_per_arg");
                reveal_strlit("call_per_arg");
                assert("call_generic_per_arg"@.subrange(0, 5) =~= "call_per_arg"@.subrange(0, 5));
                lemma_precedes_at("call_generic_per_arg"@, "call_per_arg"@, 5);
            } else if i == 9 {
                reveal_strlit("call_per_arg");
                reveal_strlit("cast_u128");
                assert("call_per_arg"@.subrange(0, 2) =~= "cast_u128"@.subrange(0, 2));
                lemma_precedes_at("call_per_arg"@, "cast_u128"@, 2);
            } else if i == 10 {
                reveal_strlit("cast_u128");
                reveal_strlit("cast_u64");
                assert("cast_u128"@.subrange(0, 6) =~= "cast_u64"@.subrange(0, 6));
                lemma_precedes_at("cast_u128"@, "cast_u64"@, 6);
            } else if i == 11 {
                reveal_strlit("cast_u64");
                reveal_strlit("cast_u8");
                assert("cast_u64"@.subrange(0, 6) =~= "cast_u8"@.subrange(0, 6));
                lemma_precedes_at("cast_u64"@, "cast_u8"@, 6);
            } else if i == 12 {
                reveal_strlit("cast_u8");
                reveal_strlit("copy_loc_per_abs_mem_unit");
                assert("cast_u8"@.subrange(0, 1) =~= "copy_loc_per_abs_mem_unit"@.subrange(0, 1));
                lemma_precedes_at("cast_u8"@, "copy_loc_per_abs_mem_unit"@, 1);
            } else if i == 13 {
                reveal_strlit("copy_loc_per_abs_mem_unit");
                reveal_strlit("div");
                assert("copy_loc_per_abs_mem_unit"@.subrange(0, 0) =~= "div"@.subrange(0, 0));
                lemma_precedes_at("copy_loc_per_abs_mem_unit"@, "div"@, 0);
            } else if i == 14 {
                reveal_strlit("div");
                reveal_strlit("eq_per_abs_mem_unit");
                assert("div"@.subrange(0, 0) =~= "eq_per_abs_mem_unit"@.subrange(0, 0));
                lemma_precedes_at("div"@, "eq_per_abs_mem_unit"@, 0);
            } else if i == 15 {
                reveal_strlit("eq_per_abs_mem_unit");
                reveal_strlit("exists_generic_per_abs_mem_unit");
                assert("eq_per_abs_mem_unit"@.subrange(0, 1) =~= "exists_generic_per_abs_mem_unit"@.subrange(0, 1));
                lemma_precedes_at("eq_per_abs_mem_unit"@, "exists_generic_per_abs_mem_unit"@, 1);
            } else if i == 16 {
                reveal_strlit("exists_generic_per_abs_mem_unit");
                reveal_strlit("exists_per_abs_mem_unit");
                assert("exists_generic_per_abs_mem_unit"@.subrange(0, 7) =~= "exists_per_abs_mem_unit"@.subrange(0, 7));
                lemma_precedes_at("exists_generic_per_abs_mem_unit"@, "exists_per_abs_mem_unit"@, 7);
            } else if i == 17 {
                reveal_strlit("exists_per_abs_mem_unit");
                reveal_strlit("freeze_ref");
                assert("exists_per_abs_mem_unit"@.subrange(0, 0) =~= "freeze_ref"@.subrange(0, 0));
                lemma_precedes_at("exists_per_abs_mem_unit"@, "freeze_ref"@, 0);
            } else if i == 18 {
                reveal_strlit("freeze_ref");
                reveal_strlit("ge");
                assert("freeze_ref"@.subrange(0, 0) =~= "ge"@.subrange(0, 0));
                lemma_precedes_at("freeze_ref"@, "ge"@, 0);
            } else if i == 19 {
                reveal_strlit("ge");
                reveal_strlit("gt");
                assert("ge"@.subrange(0, 1) =~= "gt"@.subrange(0, 1));
                lemma_precedes_at("ge"@, "gt"@, 1);
            } else if i == 20 {
                reveal_strlit("gt");
                reveal_strlit("imm_borrow_field");
                assert("gt"@.subrange(0, 0) =~= "imm_borrow_field"@.subrange(0, 0));
                lemma_precedes_at("gt"@, "imm_borrow_field"@, 0);
            } else if i == 21 {
                reveal_strlit("imm_borrow_field");
                reveal_strlit("imm_borrow_field_generic");
                assert("imm_borrow_field"@.subrange(0, 16) =~= "imm_borrow_field_generic"@.subrange(0, 16));
                lemma_precedes_at("imm_borrow_field"@, "imm_borrow_field_generic"@, 16);
            } else if i == 22 {
                reveal_strlit("imm_borrow_field_generic");
                reveal_strlit("imm_borrow_global_base");
                assert("imm_borrow_field_generic"@.subrange(0, 11) =~= "imm_borrow_global_base"@.subrange(0, 11));
                lemma_precedes_at("imm_borrow_field_generic"@, "imm_borrow_global_base"@, 11);
            } else if i == 23 {
                reveal_strlit("imm_borrow_global_base");
                reveal_strlit("imm_borrow_global_generic_base");
                assert("imm_borrow_global_base"@.subrange(0, 18) =~= "imm_borrow_global_generic_base"@.subrange(0, 18));
                lemma_precedes_at("imm_borrow_global_base"@, "imm_borrow_global_generic_base"@, 18);
            } else if i == 24 {
                reveal_strlit("imm_borrow_global_generic_base");
                reveal_strlit("imm_borrow_loc");
                assert("imm_borrow_global_generic_base"@.subrange(0, 11) =~= "imm_borrow_loc"@.subrange(0, 11));
                lemma_precedes_at("imm_borrow_global_generic_base"@, "imm_borrow_loc"@, 11);
            } else if i == 25 {
                reveal_strlit("imm_borrow_loc");
                reveal_strlit("ld_const_per_byte");
                assert("imm_borrow_loc"@.subrange(0, 0) =~= "ld_const_per_byte"@.subrange(0, 0));
                lemma_precedes_at("imm_borrow_loc"@, "ld_const_per_byte"@, 0);
            } else if i == 26 {
                reveal_strlit("ld_const_per_byte");
                reveal_strlit("ld_false");
                assert("ld_const_per_byte"@.subrange(0, 3) =~= "ld_false"@.subrange(0, 3));
                lemma_precedes_at("ld_const_per_byte"@, "ld_false"@, 3);
            } else if i == 27 {
                reveal_strlit("ld_false");
                reveal_strlit("ld_true");
                assert("ld_false"@.subrange(0, 3) =~= "ld_true"@.subrange(0, 3));
                lemma_precedes_at("ld_false"@, "ld_true"@, 3);
            } else if i == 28 {
                reveal_strlit("ld_true");
                reveal_strlit("ld_u128");
                assert("ld_true"@.subrange(0, 3) =~= "ld_u128"@.subrange(0, 3));
                lemma_precedes_at("ld_true"@, "ld_u128"@, 3);
            } else if i == 29 {
                reveal_strlit("ld_u128");
                reveal_strlit("ld_u64");
                assert("ld_u128"@.subrange(0, 4) =~= "ld_u64"@.subrange(0, 4));
                lemma_precedes_at("ld_u128"@, "ld_u64"@, 4);
            } else if i == 30 {
                reveal_strlit("ld_u64");
                reveal_strlit("ld_u8");
                assert("ld_u64"@.subrange(0, 4) =~= "ld_u8"@.subrange(0, 4));
                lemma_precedes_at("ld_u64"@, "ld_u8"@, 4);
            } else if i == 31 {
                reveal_strlit("ld_u8");
                reveal_strlit("le");
                assert("ld_u8"@.subrange(0, 1) =~= "le"@.subrange(0, 1));
                lemma_precedes_at("ld_u8"@, "le"@, 1);
            } else if i == 32 {
                reveal_strlit("le");
                reveal_strlit("lt");
                assert("le"@.subrange(0, 1) =~= "lt"@.subrange(0, 1));
                lemma_precedes_at("le"@, "lt"@, 1);
            } else if i == 33 {
                reveal_strlit("lt");
                reveal_strlit("mod");
                assert("lt"@.subrange(0, 0) =~= "mod"@.subrange(0, 0));
                lemma_precedes_at("lt"@, "mod"@, 0);
            } else if i == 34 {
                reveal_strlit("mod");
                reveal_strlit("move_from_generic_per_abs_mem_unit");
                assert("mod"@.subrange(0, 2) =~= "move_from_generic_per_abs_mem_unit"@.subrange(0, 2));
                lemma_precedes_at("mod"@, "move_from_generic_per_abs_mem_unit"@, 2);
            } else if i == 35 {
                reveal_strlit("move_from_generic_per_abs_mem_unit");
                reveal_strlit("move_from_per_abs_mem_unit");
                assert("move_from_generic_per_abs_mem_unit"@.subrange(0, 10) =~= "move_from_per_abs_mem_unit"@.subrange(0, 10));
                lemma_precedes_at("move_from_generic_per_abs_mem_unit"@, "move_from_per_abs_mem_unit"@, 10);
            } else if i == 36 {
                reveal_strlit("move_from_per_abs_mem_unit");
                reveal_strlit("move_loc_per_abs_mem_unit");
                assert("move_from_per_abs_mem_unit"@.subrange(0, 5) =~= "move_loc_per_abs_mem_unit"@.subrange(0, 5));
                lemma_precedes_at("move_from_per_abs_mem_unit"@, "move_loc_per_abs_mem_unit"@, 5);
            } else if i == 37 {
                reveal_strlit("move_loc_per_abs_mem_unit");
                reveal_strlit("move_to_generic_per_abs_mem_unit");
                assert("move_loc_per_abs_mem_unit"@.subrange(0, 5) =~= "move_to_generic_per_abs_mem_unit"@.subrange(0, 5));
                lemma_precedes_at("move_loc_per_abs_mem_unit"@, "move_to_generic_per_abs_mem_unit"@, 5);
            } else if i == 38 {
                reveal_strlit("move_to_generic_per_abs_mem_unit");
                reveal_strlit("move_to_per_abs_mem_unit");
                assert("move_to_generic_per_abs_mem_unit"@.subrange(0, 8) =~= "move_to_per_abs_mem_unit"@.subrange(0, 8));
                lemma_precedes_at("move_to_generic_per_abs_mem_unit"@, "move_to_per_abs_mem_unit"@, 8);
            } else if i == 39 {
                reveal_strlit("move_to_per_abs_mem_unit");
                reveal_strlit("mul");
                assert("move_to_per_abs_mem_unit"@.subrange(0, 1) =~= "mul"@.subrange(0, 1));
                lemma_precedes_at("move_to_per_abs_mem_unit"@, "mul"@, 1);
            } else if i == 40 {
                reveal_strlit("mul");
                reveal_strlit("mut_borrow_field");
                assert("mul"@.subrange(0, 2) =~= "mut_borrow_field"@.subrange(0, 2));
                lemma_precedes_at("mul"@, "mut_borrow_field"@, 2);
            } else if i == 41 {
                reveal_strlit("mut_borrow_field");
                reveal_strlit("mut_borrow_field_generic");
                assert("mut_borrow_field"@.subrange(0, 16) =~= "mut_borrow_field_generic"@.subrange(0, 16));
                lemma_precedes_at("mut_borrow_field"@, "mut_borrow_field_generic"@, 16);
            } else if i == 42 {
                reveal_strlit("mut_borrow_field_generic");
                reveal_strlit("mut_borrow_global_base");
                assert("mut_borrow_field_generic"@.subrange(0, 11) =~= "mut_borrow_global_base"@.subrange(0, 11));
                lemma_precedes_at("mut_borrow_field_generic"@, "mut_borrow_global_base"@, 11);
            } else if i == 43 {
                reveal_strlit("mut_borrow_global_base");
                reveal_strlit("mut_borrow_global_generic_base");
                assert("mut_borrow_global_base"@.subrange(0, 18) =~= "mut_borrow_global_generic_base"@.subrange(0, 18));
                lemma_precedes_at("mut_borrow_global_base"@, "mut_borrow_global_generic_base"@, 18);
            } else if i == 44 {
                reveal_strlit("mut_borrow_global_generic_base");
                reveal_strlit("mut_borrow_loc");
                assert("mut_borrow_global_generic_base"@.subrange(0, 11) =~= "mut_borrow_loc"@.subrange(0, 11));
                lemma_precedes_at("mut_borrow_global_generic_base"@, "mut_borrow_loc"@, 11);
            } else if i == 45 {
                reveal_strlit("mut_borrow_loc");
                reveal_strlit("nop");
                assert("mut_borrow_loc"@.subrange(0, 0) =~= "nop"@.subrange(0, 0));
                lemma_precedes_at("mut_borrow_loc"@, "nop"@, 0);
            } else if i == 46 {
                reveal_strlit("nop");
                reveal_strlit("not");
                assert("nop"@.subrange(0, 2) =~= "not"@.subrange(0, 2));
                lemma_precedes_at("nop"@, "not"@, 2);
            } else if i == 47 {
                reveal_strlit("not");
                reveal_strlit("or");
                assert("not"@.subrange(0, 0) =~= "or"@.subrange(0, 0));
                lemma_precedes_at("not"@, "or"@, 0);
            } else if i == 48 {
                reveal_strlit("or");
                reveal_strlit("pack_generic_per_abs_mem_unit");
                assert("or"@.subrange(0, 0) =~= "pack_generic_per_abs_mem_unit"@.subrange(0, 0));
                lemma_precedes_at("or"@, "pack_generic_per_abs_mem_unit"@, 0);
            } else if i == 49 {
                reveal_strlit("pack_generic_per_abs_mem_unit");
                reveal_strlit("pack_per_abs_mem_unit");
                assert("pack_generic_per_abs_mem_unit"@.subrange(0, 5) =~= "pack_per_abs_mem_unit"@.subrange(0, 5));
                lemma_precedes_at("pack_generic_per_abs_mem_unit"@, "pack_per_abs_mem_unit"@, 5);
            } else if i == 50 {
                reveal_strlit("pack_per_abs_mem_unit");
                reveal_strlit("pop");
                assert("pack_per_abs_mem_unit"@.subrange(0, 1) =~= "pop"@.subrange(0, 1));
                lemma_precedes_at("pack_per_abs_mem_unit"@, "pop"@, 1);
            } else if i == 51 {
                reveal_strlit("pop");
                reveal_strlit("read_ref_per_abs_mem_unit");
                assert("pop"@.subrange(0, 0) =~= "read_ref_per_abs_mem_unit"@.subrange(0, 0));
                lemma_precedes_at("pop"@, "read_ref_per_abs_mem_unit"@, 0);
            } else if i == 52 {
                reveal_strlit("read_ref_per_abs_mem_unit");
                reveal_strlit("ret");
                assert("read_ref_per_abs_mem_unit"@.subrange(0, 2) =~= "ret"@.subrange(0, 2));
                lemma_precedes_at("read_ref_per_abs_mem_unit"@, "ret"@, 2);
            } else if i == 53 {
                reveal_strlit("ret");
                reveal_strlit("shl");
                assert("ret"@.subrange(0, 0) =~= "shl"@.subrange(0, 0));
                lemma_precedes_at("ret"@, "shl"@, 0);
            } else if i == 54 {
                reveal_strlit("shl");
                reveal_strlit("shr");
                assert("shl"@.subrange(0, 2) =~= "shr"@.subrange(0, 2));
                lemma_precedes_at("shl"@, "shr"@, 2);
            } else if i == 55 {
                reveal_strlit("shr");
                reveal_strlit("st_loc_per_abs_mem_unit");
                assert("shr"@.subrange(0, 1) =~= "st_loc_per_abs_mem_unit"@.subrange(0, 1));
                lemma_precedes_at("shr"@, "st_loc_per_abs_mem_unit"@, 1);
            } else if i == 56 {
                reveal_strlit("st_loc_per_abs_mem_unit");
                reveal_strlit("sub");
                assert("st_loc_per_abs_mem_unit"@.subrange(0, 1) =~= "sub"@.subrange(0, 1));
                lemma_precedes_at("st_loc_per_abs_mem_unit"@, "sub"@, 1);
            } else if i == 57 {
                reveal_strlit("sub");
                reveal_strlit("unpack_generic_per_abs_mem_unit");
                assert("sub"@.subrange(0, 0) =~= "unpack_generic_per_abs_mem_unit"@.subrange(0, 0));
                lemma_precedes_at("sub"@, "unpack_generic_per_abs_mem_unit"@, 0);
            } else if i == 58 {
                reveal_strlit("unpack_generic_per_abs_mem_unit");
                reveal_strlit("unpack_per_abs_mem_unit");
                assert("unpack_generic_per_abs_mem_unit"@.subrange(0, 7) =~= "unpack_per_abs_mem_unit"@.subrange(0, 7));
                lemma_precedes_at("unpack_generic_per_abs_mem_unit"@, "unpack_per_abs_mem_unit"@, 7);
            } else if i == 59 {
                reveal_strlit("unpack_per_abs_mem_unit");
                reveal_strlit("vec_imm_borrow_base");
                assert("unpack_per_abs_mem_unit"@.subrange(0, 0) =~= "vec_imm_borrow_base"@.subrange(0, 0));
                lemma_precedes_at("unpack_per_abs_mem_unit"@, "vec_imm_borrow_base"@, 0);
            } else if i == 60 {
                reveal_strlit("vec_imm_borrow_base");
                reveal_strlit("vec_len_base");
                assert("vec_imm_borrow_base"@.subrange(0, 4) =~= "vec_len_base"@.subrange(0, 4));
                lemma_precedes_at("vec_imm_borrow_base"@, "vec_len_base"@, 4);
            } else if i == 61 {
                reveal_strlit("vec_len_base");
                reveal_strlit("vec_mut_borrow_base");
                assert("vec_len_base"@.subrange(0, 4) =~= "vec_mut_borrow_base"@.subrange(0, 4));
                lemma_precedes_at("vec_len_base"@, "vec_mut_borrow_base"@, 4);
            } else if i == 62 {
                reveal_strlit("vec_mut_borrow_base");
                reveal_strlit("vec_pack_per_elem");
                assert("vec_mut_borrow_base"@.subrange(0, 4) =~= "vec_pack_per_elem"@.subrange(0, 4));
                lemma_precedes_at("vec_mut_borrow_base"@, "vec_pack_per_elem"@, 4);
            } else if i == 63 {
                reveal_strlit("vec_pack_per_elem");
                reveal_strlit("vec_pop_back_base");
                assert("vec_pack_per_elem"@.subrange(0, 5) =~= "vec_pop_back_base"@.subrange(0, 5));
                lemma_precedes_at("vec_pack_per_elem"@, "vec_pop_back_base"@, 5);
            } else if i == 64 {
                reveal_strlit("vec_pop_back_base");
                reveal_strlit("vec_push_back_per_abs_mem_unit");
                assert("vec_pop_back_base"@.subrange(0, 5) =~= "vec_push_back_per_abs_mem_unit"@.subrange(0, 5));
                lemma_precedes_at("vec_pop_back_base"@, "vec_push_back_per_abs_mem_unit"@, 5);
            } else if i == 65 {
                reveal_strlit("vec_push_back_per_abs_mem_unit");
                reveal_strlit("vec_swap_base");
                assert("vec_push_back_per_abs_mem_unit"@.subrange(0, 4) =~= "vec_swap_base"@.subrange(0, 4));
                lemma_precedes_at("vec_push_back_per_abs_mem_unit"@, "vec_swap_base"@, 4);
            } else if i == 66 {
                reveal_strlit("vec_swap_base");
                reveal_strlit("vec_unpack_per_expected_elem");
                assert("vec_swap_base"@.subrange(0, 4) =~= "vec_unpack_per_expected_elem"@.subrange(0, 4));
                lemma_precedes_at("vec_swap_base"@, "vec_unpack_per_expected_elem"@, 4);
            } else if i == 67 {
                reveal_strlit("vec_unpack_per_expected_elem");
                reveal_strlit("write_ref_per_abs_mem_unit");
                assert("vec_unpack_per_expected_elem"@.subrange(0, 0) =~= "write_ref_per_abs_mem_unit"@.subrange(0, 0));
                lemma_precedes_at("vec_unpack_per_expected_elem"@, "write_ref_per_abs_mem_unit"@, 0);
            } else if i == 68 {
                reveal_strlit("write_ref_per_abs_mem_unit");
                reveal_strlit("xor");
                assert("write_ref_per_abs_mem_unit"@.subrange(0, 0) =~= "xor"@.subrange(0, 0));
                lemma_precedes_at("write_ref_per_abs_mem_unit"@, "xor"@, 0);
            }
        }
    }
}

impl TransactionGasParameters {
    /// The field names are in strictly increasing dictionary order.
    pub proof fn lemma_field_names_sorted()
        ensures
            sorted(texts(Self::field_names())),
    {
        let t = texts(Self::field_names());
        assert forall|i: int| 0 <= i < t.len() - 1 implies precedes(#[trigger] t[i], t[i + 1]) by {
            if i == 0 {
                reveal_strlit("default_account_size");
                reveal_strlit("gas_unit_scaling_factor");
                assert("default_account_size"@.subrange(0, 0) =~= "gas_unit_scaling_factor"@.subrange(0, 0));
                lemma_precedes_at("default_account_size"@, "gas_unit_scaling_factor"@, 0);
            } else if i == 1 {
                reveal_strlit("gas_unit_scaling_factor");
                reveal_strlit("global_memory_per_byte_cost");
                assert("gas_unit_scaling_factor"@.subrange(0, 1) =~= "global_memory_per_byte_cost"@.subrange(0, 1));
                lemma_precedes_at("gas_unit_scaling_factor"@, "global_memory_per_byte_cost"@, 1);
            } else if i == 2 {
                reveal_strlit("global_memory_per_byte_cost");
                reveal_strlit("global_memory_per_byte_write_cost");
                assert("global_memory_per_byte_cost"@.subrange(0, 23) =~= "global_memory_per_byte_write_cost"@.subrange(0, 23));
                lemma_precedes_at("global_memory_per_byte_cost"@, "global_memory_per_byte_write_cost"@, 23);
            } else if i == 3 {
                reveal_strlit("global_memory_per_byte_write_cost");
                reveal_strlit("intrinsic_gas_per_byte");
                assert("global_memory_per_byte_write_cost"@.subrange(0, 0) =~= "intrinsic_gas_per_byte"@.subrange(0, 0));
                lemma_precedes_at("global_memory_per_byte_write_cost"@, "intrinsic_gas_per_byte"@, 0);
            } else if i == 4 {
                reveal_strlit("intrinsic_gas_per_byte");
                reveal_strlit("max_price_per_gas_unit");
                assert("intrinsic_gas_per_byte"@.subrange(0, 0) =~= "max_price_per_gas_unit"@.subrange(0, 0));
                lemma_precedes_at("intrinsic_gas_per_byte"@, "max_price_per_gas_unit"@, 0);
            } else if i == 5 {
                reveal_strlit("max_price_per_gas_unit");
                reveal_strlit("max_transaction_size_in_bytes");
                assert("max_price_per_gas_unit"@.subrange(0, 4) =~= "max_transaction_size_in_bytes"@.subrange(0, 4));
                lemma_precedes_at("max_price_per_gas_unit"@, "max_transaction_size_in_bytes"@, 4);
            } else if i == 6 {
                reveal_strlit("max_transaction_size_in_bytes");
                reveal_strlit("maximum_number_of_gas_units");
                assert("max_transaction_size_in_bytes"@.subrange(0, 3) =~= "maximum_number_of_gas_units"@.subrange(0, 3));
                lemma_precedes_at("max_transaction_size_in_bytes"@, "maximum_number_of_gas_units"@, 3);
            } else if i == 7 {
                reveal_strlit("maximum_number_of_gas_units");
                reveal_strlit("min_price_per_gas_unit");
                assert("maximum_number_of_gas_units"@.subrange(0, 1) =~= "min_price_per_gas_unit"@.subrange(0, 1));
                lemma_precedes_at("maximum_number_of_gas_units"@, "min_price_per_gas_unit"@, 1);
            } else if i == 8 {
                reveal_strlit("min_price_per_gas_unit");
                reveal_strlit("min_transaction_gas_units");
                assert("min_price_per_gas_unit"@.subrange(0, 4) =~= "min_transaction_gas_units"@.subrange(0, 4));
                lemma_precedes_at("min_price_per_gas_unit"@, "min_transaction_gas_units"@, 4);
            }
        }
    }
}

impl MoveStdlibGasParameters {
    /// The field names are in strictly increasing dictionary order.
    pub proof fn lemma_field_names_sorted()
        ensures
            sorted(texts(Self::field_names())),
    {
        let t = texts(Self::field_names());
        assert forall|i: int| 0 <= i < t.len() - 1 implies precedes(#[trigger] t[i], t[i + 1]) by {
            if i == 0 {
                reveal_strlit("bcs.to_bytes.failure");
                reveal_strlit("bcs.to_bytes.per_byte_serialized");
                assert("bcs.to_bytes.failure"@.subrange(0, 13) =~= "bcs.to_bytes.per_byte_serialized"@.subrange(0, 13));
                lemma_precedes_at("bcs.to_bytes.failure"@, "bcs.to_bytes.per_byte_serialized"@, 13);
            } else if i == 1 {
                reveal_strlit("bcs.to_bytes.per_byte_serialized");
                reveal_strlit("hash.sha2_256.base");
                assert("bcs.to_bytes.per_byte_serialized"@.subrange(0, 0) =~= "hash.sha2_256.base"@.subrange(0, 0));
                lemma_precedes_at("bcs.to_bytes.per_byte_serialized"@, "hash.sha2_256.base"@, 0);
            } else if i == 2 {
                reveal_strlit("hash.sha2_256.base");
                reveal_strlit("hash.sha2_256.per_byte");
                assert("hash.sha2_256.base"@.subrange(0, 14) =~= "hash.sha2_256.per_byte"@.subrange(0, 14));
                lemma_precedes_at("hash.sha2_256.base"@, "hash.sha2_256.per_byte"@, 14);
            } else if i == 3 {
                reveal_strlit("hash.sha2_256.per_byte");
                reveal_strlit("hash.sha3_256.base");
                assert("hash.sha2_256.per_byte"@.subrange(0, 8) =~= "hash.sha3_256.base"@.subrange(0, 8));
                lemma_precedes_at("hash.sha2_256.per_byte"@, "hash.sha3_256.base"@, 8);
            } else if i == 4 {
                reveal_strlit("hash.sha3_256.base");
                reveal_strlit("hash.sha3_256.per_byte");
                assert("hash.sha3_256.base"@.subrange(0, 14) =~= "hash.sha3_256.per_byte"@.subrange(0, 14));
                lemma_precedes_at("hash.sha3_256.base"@, "hash.sha3_256.per_byte"@, 14);
            } else if i == 5 {
                reveal_strlit("hash.sha3_256.per_byte");
                reveal_strlit("signer.borrow_address.base");
                assert("hash.sha3_256.per_byte"@.subrange(0, 0) =~= "signer.borrow_address.base"@.subrange(0, 0));
                lemma_precedes_at("hash.sha3_256.per_byte"@, "signer.borrow_address.base"@, 0);
            } else if i == 6 {
                reveal_strlit("signer.borrow_address.base");
                reveal_strlit("string.check_utf8.base");
                assert("signer.borrow_address.base"@.subrange(0, 1) =~= "string.check_utf8.base"@.subrange(0, 1));
                lemma_precedes_at("signer.borrow_address.base"@, "string.check_utf8.base"@, 1);
            } else if i == 7 {
                reveal_strlit("string.check_utf8.base");
                reveal_strlit("string.check_utf8.per_byte");
                assert("string.check_utf8.base"@.subrange(0, 18) =~= "string.check_utf8.per_byte"@.subrange(0, 18));
                lemma_precedes_at("string.check_utf8.base"@, "string.check_utf8.per_byte"@, 18);
            } else if i == 8 {
                reveal_strlit("string.check_utf8.per_byte");
                reveal_strlit("string.sub_string.base");
                assert("string.check_utf8.per_byte"@.subrange(0, 7) =~= "string.sub_string.base"@.subrange(0, 7));
                lemma_precedes_at("string.check_utf8.per_byte"@, "string.sub_string.base"@, 7);
            }
        }
    }
}

impl NurseryGasParameters {
    /// The field names are in strictly increasing dictionary order.
    pub proof fn lemma_field_names_sorted()
        ensures
            sorted(texts(Self::field_names())),
    {
        let t = texts(Self::field_names());
        assert forall|i: int| 0 <= i < t.len() - 1 implies precedes(#[trigger] t[i], t[i + 1]) by {
            if i == 0 {
                reveal_strlit("debug.print.base_cost");
                reveal_strlit("debug.print_stack_trace.base_cost");
                assert("debug.print.base_cost"@.subrange(0, 11) =~= "debug.print_stack_trace.base_cost"@.subrange(0, 11));
                lemma_precedes_at("debug.print.base_cost"@, "debug.print_stack_trace.base_cost"@, 11);
            } else if i == 1 {
                reveal_strlit("debug.print_stack_trace.base_cost");
                reveal_strlit("event.write_to_event_store.unit_cost");
                assert("debug.print_stack_trace.base_cost"@.subrange(0, 0) =~= "event.write_to_event_store.unit_cost"@.subrange(0, 0));
                lemma_precedes_at("debug.print_stack_trace.base_cost"@, "event.write_to_event_store.unit_cost"@, 0);
            }
        }
    }
}

impl StarcoinNativesGasParameters {
    /// The field names are in strictly increasing dictionary order.
    pub proof fn lemma_field_names_sorted()
        ensures
            sorted(texts(Self::field_names())),
    {
        let t = texts(Self::field_names());
        assert forall|i: int| 0 <= i < t.len() - 1 implies precedes(#[trigger] t[i], t[i + 1]) by {
            if i == 0 {
                reveal_strlit("account.create_signer.base");
                reveal_strlit("account.destroy_signer.base");
                assert("account.create_signer.base"@.subrange(0, 8) =~= "account.destroy_signer.base"@.subrange(0, 8));
                lemma_precedes_at("account.create_signer.base"@, "account.destroy_signer.base"@, 8);
            } else if i == 1 {
                reveal_strlit("account.destroy_signer.base");
                reveal_strlit("hash.keccak256.base");
                assert("account.destroy_signer.base"@.subrange(0, 0) =~= "hash.keccak256.base"@.subrange(0, 0));
                lemma_precedes_at("account.destroy_signer.base"@, "hash.keccak256.base"@, 0);
            } else if i == 2 {
                reveal_strlit("hash.keccak256.base");
                reveal_strlit("hash.keccak256.per_byte");
                assert("hash.keccak256.base"@.subrange(0, 15) =~= "hash.keccak256.per_byte"@.subrange(0, 15));
                lemma_precedes_at("hash.keccak256.base"@, "hash.keccak256.per_byte"@, 15);
            } else if i == 3 {
                reveal_strlit("hash.keccak256.per_byte");
                reveal_strlit("hash.ripemd160.base");
                assert("hash.keccak256.per_byte"@.subrange(0, 5) =~= "hash.ripemd160.base"@.subrange(0, 5));
                lemma_precedes_at("hash.keccak256.per_byte"@, "hash.ripemd160.base"@, 5);
            } else if i == 4 {
                reveal_strlit("hash.ripemd160.base");
                reveal_strlit("hash.ripemd160.per_byte");
                assert("hash.ripemd160.base"@.subrange(0, 15) =~= "hash.ripemd160.per_byte"@.subrange(0, 15));
                lemma_precedes_at("hash.ripemd160.base"@, "hash.ripemd160.per_byte"@, 15);
            } else if i == 5 {
                reveal_strlit("hash.ripemd160.per_byte");
                reveal_strlit("signature.ed25519_validate_key.base");
                assert("hash.ripemd160.per_byte"@.subrange(0, 0) =~= "signature.ed25519_validate_key.base"@.subrange(0, 0));
                lemma_precedes_at("hash.ripemd160.per_byte"@, "signature.ed25519_validate_key.base"@, 0);
            } else if i == 6 {
                reveal_strlit("signature.ed25519_validate_key.base");
                reveal_strlit("signature.ed25519_verify.base");
                assert("signature.ed25519_validate_key.base"@.subrange(0, 19) =~= "signature.ed25519_verify.base"@.subrange(0, 19));
                lemma_precedes_at("signature.ed25519_validate_key.base"@, "signature.ed25519_verify.base"@, 19);
            } else if i == 7 {
                reveal_strlit("signature.ed25519_verify.base");
                reveal_strlit("signature.ed25519_verify.per_byte");
                assert("signature.ed25519_verify.base"@.subrange(0, 25) =~= "signature.ed25519_verify.per_byte"@.subrange(0, 25));
                lemma_precedes_at("signature.ed25519_verify.base"@, "signature.ed25519_verify.per_byte"@, 25);
            } else if i == 8 {
                reveal_strlit("signature.ed25519_verify.per_byte");
                reveal_strlit("token.name_of.base");
                assert("signature.ed25519_verify.per_byte"@.subrange(0, 0) =~= "token.name_of.base"@.subrange(0, 0));
                lemma_precedes_at("signature.ed25519_verify.per_byte"@, "token.name_of.base"@, 0);
            }
        }
    }
}

impl TableGasParameters {
    /// The field names are in strictly increasing dictionary order.
    pub proof fn lemma_field_names_sorted()
        ensures
            sorted(texts(Self::field_names())),
    {
        let t = texts(Self::field_names());
        assert forall|i: int| 0 <= i < t.len() - 1 implies precedes(#[trigger] t[i], t[i + 1]) by {
            if i == 0 {
                reveal_strlit("add_box.base");
                reveal_strlit("borrow_box.base");
                assert("add_box.base"@.subrange(0, 0) =~= "borrow_box.base"@.subrange(0, 0));
                lemma_precedes_at("add_box.base"@, "borrow_box.base"@, 0);
            } else if i == 1 {
                reveal_strlit("borrow_box.base");
                reveal_strlit("common.load.base");
                assert("borrow_box.base"@.subrange(0, 0) =~= "common.load.base"@.subrange(0, 0));
                lemma_precedes_at("borrow_box.base"@, "common.load.base"@, 0);
            } else if i == 2 {
                reveal_strlit("common.load.base");
                reveal_strlit("common.load.per_byte");
                assert("common.load.base"@.subrange(0, 12) =~= "common.load.per_byte"@.subrange(0, 12));
                lemma_precedes_at("common.load.base"@, "common.load.per_byte"@, 12);
            } else if i == 3 {
                reveal_strlit("common.load.per_byte");
                reveal_strlit("contains_box.base");
                assert("common.load.per_byte"@.subrange(0, 2) =~= "contains_box.base"@.subrange(0, 2));
                lemma_precedes_at("common.load.per_byte"@, "contains_box.base"@, 2);
            } else if i == 4 {
                reveal_strlit("contains_box.base");
                reveal_strlit("destroy_empty_box.base");
                assert("contains_box.base"@.subrange(0, 0) =~= "destroy_empty_box.base"@.subrange(0, 0));
                lemma_precedes_at("contains_box.base"@, "destroy_empty_box.base"@, 0);
            } else if i == 5 {
                reveal_strlit("destroy_empty_box.base");
                reveal_strlit("new_table_handle.base");
                assert("destroy_empty_box.base"@.subrange(0, 0) =~= "new_table_handle.base"@.subrange(0, 0));
                lemma_precedes_at("destroy_empty_box.base"@, "new_table_handle.base"@, 0);
            } else if i == 6 {
                reveal_strlit("new_table_handle.base");
                reveal_strlit("remove_box.base");
                assert("new_table_handle.base"@.subrange(0, 0) =~= "remove_box.base"@.subrange(0, 0));
                lemma_precedes_at("new_table_handle.base"@, "remove_box.base"@, 0);
            }
        }
    }
}

/// No name of `a` is a name of `b`.
pub open spec fn apart(a: Seq<Seq<char>>, b: Seq<Seq<char>>) -> bool {
    forall|i: int, j: int| 0 <= i < a.len() && 0 <= j < b.len() ==> #[trigger] a[i] != #[trigger] b[j]
}

pub proof fn lemma_apart_left(a: Seq<Seq<char>>, b: Seq<Seq<char>>, c: Seq<Seq<char>>)
    requires
        apart(a, c),
        apart(b, c),
    ensures
        apart(a + b, c),
{
    assert forall|i: int, j: int| 0 <= i < (a + b).len() && 0 <= j < c.len() implies #[trigger] (a
        + b)[i] != #[trigger] c[j] by {
        if i >= a.len() {
            assert((a + b)[i] == b[i - a.len()]);
        }
    }
}

pub proof fn lemma_apart_right(c: Seq<Seq<char>>, a: Seq<Seq<char>>, b: Seq<Seq<char>>)
    requires
        apart(c, a),
        apart(c, b),
    ensures
        apart(c, a + b),
{
    assert forall|i: int, j: int| 0 <= i < c.len() && 0 <= j < (a + b).len() implies #[trigger] c[i]
        != #[trigger] (a + b)[j] by {
        if j >= a.len() {
            assert((a + b)[j] == b[j - a.len()]);
        }
    }
}

/// Every on-chain name, in the order in which a full parameter set and then
/// its miscellaneous group are written.
pub open spec fn all_names() -> Seq<Seq<char>> {
    InstructionGasParameters::names() + TransactionGasParameters::names() + NativeGasParameters::names()
        + MiscGasParameters::names()
}

proof fn lemma_group_names_distinct()
    ensures
        distinct(InstructionGasParameters::names()),
        distinct(TransactionGasParameters::names()),
        distinct(MoveStdlibGasParameters::names()),
        distinct(NurseryGasParameters::names()),
        distinct(StarcoinNativesGasParameters::names()),
        distinct(TableGasParameters::names()),
        distinct(MiscGasParameters::names()),
{
    InstructionGasParameters::lemma_field_names_sorted();
    lemma_sorted_distinct(texts(InstructionGasParameters::field_names()));
    lemma_qualified_distinct(InstructionGasParameters::prefix(), InstructionGasParameters::field_names());
    TransactionGasParameters::lemma_field_names_sorted();
    lemma_sorted_distinct(texts(TransactionGasParameters::field_names()));
    lemma_qualified_distinct(TransactionGasParameters::prefix(), TransactionGasParameters::field_names());
    MoveStdlibGasParameters::lemma_field_names_sorted();
    lemma_sorted_distinct(texts(MoveStdlibGasParameters::field_names()));
    lemma_qualified_distinct(MoveStdlibGasParameters::prefix(), MoveStdlibGasParameters::field_names());
    NurseryGasParameters::lemma_field_names_sorted();
    lemma_sorted_distinct(texts(NurseryGasParameters::field_names()));
    lemma_qualified_distinct(NurseryGasParameters::prefix(), NurseryGasParameters::field_names());
    StarcoinNativesGasParameters::lemma_field_names_sorted();
    lemma_sorted_distinct(texts(StarcoinNativesGasParameters::field_names()));
    lemma_qualified_distinct(
        StarcoinNativesGasParameters::prefix(),
        StarcoinNativesGasParameters::field_names(),
    );
    TableGasParameters::lemma_field_names_sorted();
    lemma_sorted_distinct(texts(TableGasParameters::field_names()));
    lemma_qualified_distinct(TableGasParameters::prefix(), TableGasParameters::field_names());
    MiscGasParameters::lemma_field_names_sorted();
    lemma_sorted_distinct(texts(MiscGasParameters::field_names()));
    lemma_qualified_distinct(MiscGasParameters::prefix(), MiscGasParameters::field_names());
}

/// The names of two groups whose prefixes differ at position `k`.
proof fn lemma_groups_apart(p: Seq<char>, f: Seq<&'static str>, q: Seq<char>, g: Seq<&'static str>, k: int)
    requires
        0 <= k < p.len(),
        k < q.len(),
        p[k] != q[k],
    ensures
        apart(qualified(p, f), qualified(q, g)),
{
    lemma_prefixes_apart(p, f, q, g, k);
}

/// No two on-chain names are equal.
pub proof fn lemma_all_names_distinct()
    ensures
        distinct(all_names()),
{
    reveal_strlit("instr.");
    reveal_strlit("txn.");
    reveal_strlit("move_stdlib.");
    reveal_strlit("nursery.");
    reveal_strlit("starcoin_natives.");
    reveal_strlit("table.");
    reveal_strlit("misc.abs_val.");
    lemma_group_names_distinct();
    let i = InstructionGasParameters::names();
    let t = TransactionGasParameters::names();
    let m = MoveStdlibGasParameters::names();
    let n = NurseryGasParameters::names();
    let c = StarcoinNativesGasParameters::names();
    let b = TableGasParameters::names();
    let x = MiscGasParameters::names();
    let (pi, fi) = (InstructionGasParameters::prefix(), InstructionGasParameters::field_names());
    let (pt, ft) = (TransactionGasParameters::prefix(), TransactionGasParameters::field_names());
    let (pm, fm) = (MoveStdlibGasParameters::prefix(), MoveStdlibGasParameters::field_names());
    let (pn, fnn) = (NurseryGasParameters::prefix(), NurseryGasParameters::field_names());
    let (pc, fc) = (StarcoinNativesGasParameters::prefix(), StarcoinNativesGasParameters::field_names());
    let (pb, fb) = (TableGasParameters::prefix(), TableGasParameters::field_names());
    let (px, fx) = (MiscGasParameters::prefix(), MiscGasParameters::field_names());

    // the natives
    lemma_groups_apart(pm, fm, pn, fnn, 0);
    lemma_concat_distinct(m, n);
    lemma_groups_apart(pm, fm, pc, fc, 0);
    lemma_groups_apart(pn, fnn, pc, fc, 0);
    lemma_apart_left(m, n, c);
    lemma_concat_distinct(m + n, c);
    lemma_groups_apart(pm, fm, pb, fb, 0);
    lemma_groups_apart(pn, fnn, pb, fb, 0);
    lemma_groups_apart(pc, fc, pb, fb, 0);
    lemma_apart_left(m, n, b);
    lemma_apart_left(m + n, c, b);
    lemma_concat_distinct(m + n + c, b);
    let natives = m + n + c + b;

    // instructions and transactions
    lemma_groups_apart(pi, fi, pt, ft, 0);
    lemma_concat_distinct(i, t);

    // ... followed by the natives
    lemma_groups_apart(pi, fi, pm, fm, 0);
    lemma_groups_apart(pi, fi, pn, fnn, 0);
    lemma_groups_apart(pi, fi, pc, fc, 0);
    lemma_groups_apart(pi, fi, pb, fb, 0);
    lemma_apart_right(i, m, n);
    lemma_apart_right(i, m + n, c);
    lemma_apart_right(i, m + n + c, b);
    lemma_groups_apart(pt, ft, pm, fm, 0);
    lemma_groups_apart(pt, ft, pn, fnn, 0);
    lemma_groups_apart(pt, ft, pc, fc, 0);
    lemma_groups_apart(pt, ft, pb, fb, 1);
    lemma_apart_right(t, m, n);
    lemma_apart_right(t, m + n, c);
    lemma_apart_right(t, m + n + c, b);
    lemma_apart_left(i, t, natives);
    lemma_concat_distinct(i + t, natives);

    // ... followed by the miscellaneous group
    lemma_groups_apart(pi, fi, px, fx, 0);
    lemma_groups_apart(pt, ft, px, fx, 0);
    lemma_groups_apart(pm, fm, px, fx, 1);
    lemma_groups_apart(pn, fnn, px, fx, 0);
    lemma_groups_apart(pc, fc, px, fx, 0);
    lemma_groups_apart(pb, fb, px, fx, 0);
    lemma_apart_left(m, n, x);
    lemma_apart_left(m + n, c, x);
    lemma_apart_left(m + n + c, b, x);
    lemma_apart_left(i, t, x);
    lemma_apart_left(i + t, natives, x);
    lemma_concat_distinct(i + t + natives, x);
}

/// A name that is none of `names` finds nothing in the entries written
/// from them.
pub proof fn lemma_find_absent(names: Seq<Seq<char>>, values: Seq<u64>, name: Seq<char>, i: int)
    requires
        names.len() == values.len(),
        forall|k: int| 0 <= k < names.len() ==> #[trigger] names[k] != name,
        0 <= i <= names.len(),
    ensures
        find_from(encode_spec(names, values), name, i) is None,
    decreases names.len() - i,
{
    if i < names.len() {
        lemma_find_absent(names, values, name, i + 1);
    }
}

} // verus!
