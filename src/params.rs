//! Gas parameter groups: flat records of named cost constants, each with an
//! all-zero constructor and the default values baked into the binary.
use crate::schedule::qualified;
use crate::units::{add_sat, mul_sat, saturating_add, scale, Gas, InternalGas, NumBytes};
use vstd::prelude::*;

verus! {

/// Abstract value sizes used to measure runtime values.
#[derive(Clone, Debug, PartialEq, Eq, Structural)]
pub struct MiscGasParameters {
    pub address: u64,
    pub bool: u64,
    pub reference: u64,
    pub struct_: u64,
    pub u128: u64,
    pub u64: u64,
    pub u8: u64,
    pub vector: u64,
}

impl MiscGasParameters {
    /// The number of parameters in this group.
    pub const COUNT: usize = 8;

    /// The prefix of every on-chain name of this group.
    pub open spec fn prefix() -> Seq<char> {
        "misc.abs_val."@
    }

    /// The parameters in on-chain order.
    pub open spec fn values(&self) -> Seq<u64> {
        seq![
            self.address,
            self.bool,
            self.reference,
            self.struct_,
            self.u128,
            self.u64,
            self.u8,
            self.vector,
        ]
    }

    /// The field part of each on-chain name, in on-chain order.
    pub open spec fn field_names() -> Seq<&'static str> {
        seq![
            "address",
            "bool",
            "reference",
            "struct",
            "u128",
            "u64",
            "u8",
            "vector",
        ]
    }

    /// The full on-chain names, in on-chain order.
    pub open spec fn names() -> Seq<Seq<char>> {
        qualified(Self::prefix(), Self::field_names())
    }

    /// The values baked into the binary.
    pub open spec fn initial_values() -> Seq<u64> {
        seq![
            40,
            40,
            8,
            40,
            40,
            40,
            40,
            40,
        ]
    }

    /// Every parameter zero.
    pub fn zeros() -> (r: Self)
        ensures
            forall|i: int| 0 <= i < r.values().len() ==> r.values()[i] == 0,
    {
        MiscGasParameters {
            address: 0,
            bool: 0,
            reference: 0,
            struct_: 0,
            u128: 0,
            u64: 0,
            u8: 0,
            vector: 0,
        }
    }

    /// The default values used before any on-chain schedule exists.
    pub fn initial() -> (r: Self)
        ensures
            r.values() == Self::initial_values(),
    {
        MiscGasParameters {
            address: 40,
            bool: 40,
            reference: 8,
            struct_: 40,
            u128: 40,
            u64: 40,
            u8: 40,
            vector: 40,
        }
    }

    /// The parameters in on-chain order.
    pub fn to_values(&self) -> (r: Vec<u64>)
        ensures
            r@ == self.values(),
    {
        let mut r: Vec<u64> = Vec::new();
        r.push(self.address);
        r.push(self.bool);
        r.push(self.reference);
        r.push(self.struct_);
        r.push(self.u128);
        r.push(self.u64);
        r.push(self.u8);
        r.push(self.vector);
        r
    }

    /// Builds the group from values in on-chain order.
    pub fn from_values(v: &Vec<u64>) -> (r: Self)
        requires
            v.len() == Self::COUNT,
        ensures
            r.values() == v@,
    {
        let r = MiscGasParameters {
            address: v[0],
            bool: v[1],
            reference: v[2],
            struct_: v[3],
            u128: v[4],
            u64: v[5],
            u8: v[6],
            vector: v[7],
        };
        assert(r.values() =~= v@);
        r
    }

    /// The field part of each on-chain name, in on-chain order.
    pub fn field_name_list() -> (r: Vec<&'static str>)
        ensures
            r@ == Self::field_names(),
    {
        let mut r: Vec<&'static str> = Vec::new();
        r.push("address");
        r.push("bool");
        r.push("reference");
        r.push("struct");
        r.push("u128");
        r.push("u64");
        r.push("u8");
        r.push("vector");
        r
    }
}

/// Costs of bytecode instructions.
#[derive(Clone, Debug, PartialEq, Eq, Structural)]
pub struct InstructionGasParameters {
    pub abort: u64,
    pub add: u64,
    pub and: u64,
    pub bit_and: u64,
    pub bit_or: u64,
    pub br_false: u64,
    pub br_true: u64,
    pub branch: u64,
    pub call_generic_per_arg: u64,
    pub call_per_arg: u64,
    pub cast_u128: u64,
    pub cast_u64: u64,
    pub cast_u8: u64,
    pub copy_loc_per_abs_mem_unit: u64,
    pub div: u64,
    pub eq_per_abs_mem_unit: u64,
    pub exists_generic_per_abs_mem_unit: u64,
    pub exists_per_abs_mem_unit: u64,
    pub freeze_ref: u64,
    pub ge: u64,
    pub gt: u64,
    pub imm_borrow_field: u64,
    pub imm_borrow_field_generic: u64,
    pub imm_borrow_global_base: u64,
    pub imm_borrow_global_generic_base: u64,
    pub imm_borrow_loc: u64,
    pub ld_const_per_byte: u64,
    pub ld_false: u64,
    pub ld_true: u64,
    pub ld_u128: u64,
    pub ld_u64: u64,
    pub ld_u8: u64,
    pub le: u64,
    pub lt: u64,
    pub mod_: u64,
    pub move_from_generic_per_abs_mem_unit: u64,
    pub move_from_per_abs_mem_unit: u64,
    pub move_loc_per_abs_mem_unit: u64,
    pub move_to_generic_per_abs_mem_unit: u64,
    pub move_to_per_abs_mem_unit: u64,
    pub mul: u64,
    pub mut_borrow_field: u64,
    pub mut_borrow_field_generic: u64,
    pub mut_borrow_global_base: u64,
    pub mut_borrow_global_generic_base: u64,
    pub mut_borrow_loc: u64,
    pub nop: u64,
    pub not: u64,
    pub or: u64,
    pub pack_generic_per_abs_mem_unit: u64,
    pub pack_per_abs_mem_unit: u64,
    pub pop: u64,
    pub read_ref_per_abs_mem_unit: u64,
    pub ret: u64,
    pub shl: u64,
    pub shr: u64,
    pub st_loc_per_abs_mem_unit: u64,
    pub sub: u64,
    pub unpack_generic_per_abs_mem_unit: u64,
    pub unpack_per_abs_mem_unit: u64,
    pub vec_imm_borrow_base: u64,
    pub vec_len_base: u64,
    pub vec_mut_borrow_base: u64,
    pub vec_pack_per_elem: u64,
    pub vec_pop_back_base: u64,
    pub vec_push_back_per_abs_mem_unit: u64,
    pub vec_swap_base: u64,
    pub vec_unpack_per_expected_elem: u64,
    pub write_ref_per_abs_mem_unit: u64,
    pub xor: u64,
}

impl InstructionGasParameters {
    /// The number of parameters in this group.
    pub const COUNT: usize = 70;

    /// The prefix of every on-chain name of this group.
    pub open spec fn prefix() -> Seq<char> {
        "instr."@
    }

    /// The parameters in on-chain order.
    pub open spec fn values(&self) -> Seq<u64> {
        seq![
            self.abort,
            self.add,
            self.and,
            self.bit_and,
            self.bit_or,
            self.br_false,
            self.br_true,
            self.branch,
            self.call_generic_per_arg,
            self.call_per_arg,
            self.cast_u128,
            self.cast_u64,
            self.cast_u8,
            self.copy_loc_per_abs_mem_unit,
            self.div,
            self.eq_per_abs_mem_unit,
            self.exists_generic_per_abs_mem_unit,
            self.exists_per_abs_mem_unit,
            self.freeze_ref,
            self.ge,
            self.gt,
            self.imm_borrow_field,
            self.imm_borrow_field_generic,
            self.imm_borrow_global_base,
            self.imm_borrow_global_generic_base,
            self.imm_borrow_loc,
            self.ld_const_per_byte,
            self.ld_false,
            self.ld_true,
            self.ld_u128,
            self.ld_u64,
            self.ld_u8,
            self.le,
            self.lt,
            self.mod_,
            self.move_from_generic_per_abs_mem_unit,
            self.move_from_per_abs_mem_unit,
            self.move_loc_per_abs_mem_unit,
            self.move_to_generic_per_abs_mem_unit,
            self.move_to_per_abs_mem_unit,
            self.mul,
            self.mut_borrow_field,
            self.mut_borrow_field_generic,
            self.mut_borrow_global_base,
            self.mut_borrow_global_generic_base,
            self.mut_borrow_loc,
            self.nop,
            self.not,
            self.or,
            self.pack_generic_per_abs_mem_unit,
            self.pack_per_abs_mem_unit,
            self.pop,
            self.read_ref_per_abs_mem_unit,
            self.ret,
            self.shl,
            self.shr,
            self.st_loc_per_abs_mem_unit,
            self.sub,
            self.unpack_generic_per_abs_mem_unit,
            self.unpack_per_abs_mem_unit,
            self.vec_imm_borrow_base,
            self.vec_len_base,
            self.vec_mut_borrow_base,
            self.vec_pack_per_elem,
            self.vec_pop_back_base,
            self.vec_push_back_per_abs_mem_unit,
            self.vec_swap_base,
            self.vec_unpack_per_expected_elem,
            self.write_ref_per_abs_mem_unit,
            self.xor,
        ]
    }

    /// The field part of each on-chain name, in on-chain order.
    pub open spec fn field_names() -> Seq<&'static str> {
        seq![
            "abort",
            "add",
            "and",
            "bit_and",
            "bit_or",
            "br_false",
            "br_true",
            "branch",
            "call_generic_per_arg",
            "call_per_arg",
            "cast_u128",
            "cast_u64",
            "cast_u8",
            "copy_loc_per_abs_mem_unit",
            "div",
            "eq_per_abs_mem_unit",
            "exists_generic_per_abs_mem_unit",
            "exists_per_abs_mem_unit",
            "freeze_ref",
            "ge",
            "gt",
            "imm_borrow_field",
            "imm_borrow_field_generic",
            "imm_borrow_global_base",
            "imm_borrow_global_generic_base",
            "imm_borrow_loc",
            "ld_const_per_byte",
            "ld_false",
            "ld_true",
            "ld_u128",
            "ld_u64",
            "ld_u8",
            "le",
            "lt",
            "mod",
            "move_from_generic_per_abs_mem_unit",
            "move_from_per_abs_mem_unit",
            "move_loc_per_abs_mem_unit",
            "move_to_generic_per_abs_mem_unit",
            "move_to_per_abs_mem_unit",
            "mul",
            "mut_borrow_field",
            "mut_borrow_field_generic",
            "mut_borrow_global_base",
            "mut_borrow_global_generic_base",
            "mut_borrow_loc",
            "nop",
            "not",
            "or",
            "pack_generic_per_abs_mem_unit",
            "pack_per_abs_mem_unit",
            "pop",
            "read_ref_per_abs_mem_unit",
            "ret",
            "shl",
            "shr",
            "st_loc_per_abs_mem_unit",
            "sub",
            "unpack_generic_per_abs_mem_unit",
            "unpack_per_abs_mem_unit",
            "vec_imm_borrow_base",
            "vec_len_base",
            "vec_mut_borrow_base",
            "vec_pack_per_elem",
            "vec_pop_back_base",
            "vec_push_back_per_abs_mem_unit",
            "vec_swap_base",
            "vec_unpack_per_expected_elem",
            "write_ref_per_abs_mem_unit",
            "xor",
        ]
    }

    /// The full on-chain names, in on-chain order.
    pub open spec fn names() -> Seq<Seq<char>> {
        qualified(Self::prefix(), Self::field_names())
    }

    /// The values baked into the binary.
    pub open spec fn initial_values() -> Seq<u64> {
        seq![
            1,
            1,
            1,
            2,
            2,
            1,
            1,
            1,
            582,
            1132,
            1,
            1,
            2,
            1,
            3,
            1,
            34,
            41,
            1,
            1,
            1,
            1,
            1,
            23,
            14,
            1,
            1,
            1,
            1,
            1,
            1,
            1,
            2,
            1,
            1,
            13,
            459,
            1,
            27,
            13,
            1,
            1,
            1,
            21,
            15,
            2,
            1,
            1,
            2,
            2,
            2,
            1,
            1,
            638,
            2,
            1,
            1,
            1,
            2,
            2,
            1334,
            98,
            1902,
            84,
            227,
            53,
            1436,
            572,
            1,
            1,
        ]
    }

    /// Every parameter zero.
    pub fn zeros() -> (r: Self)
        ensures
            forall|i: int| 0 <= i < r.values().len() ==> r.values()[i] == 0,
    {
        InstructionGasParameters {
            abort: 0,
            add: 0,
            and: 0,
            bit_and: 0,
            bit_or: 0,
            br_false: 0,
            br_true: 0,
            branch: 0,
            call_generic_per_arg: 0,
            call_per_arg: 0,
            cast_u128: 0,
            cast_u64: 0,
            cast_u8: 0,
            copy_loc_per_abs_mem_unit: 0,
            div: 0,
            eq_per_abs_mem_unit: 0,
            exists_generic_per_abs_mem_unit: 0,
            exists_per_abs_mem_unit: 0,
            freeze_ref: 0,
            ge: 0,
            gt: 0,
            imm_borrow_field: 0,
            imm_borrow_field_generic: 0,
            imm_borrow_global_base: 0,
            imm_borrow_global_generic_base: 0,
            imm_borrow_loc: 0,
            ld_const_per_byte: 0,
            ld_false: 0,
            ld_true: 0,
            ld_u128: 0,
            ld_u64: 0,
            ld_u8: 0,
            le: 0,
            lt: 0,
            mod_: 0,
            move_from_generic_per_abs_mem_unit: 0,
            move_from_per_abs_mem_unit: 0,
            move_loc_per_abs_mem_unit: 0,
            move_to_generic_per_abs_mem_unit: 0,
            move_to_per_abs_mem_unit: 0,
            mul: 0,
            mut_borrow_field: 0,
            mut_borrow_field_generic: 0,
            mut_borrow_global_base: 0,
            mut_borrow_global_generic_base: 0,
            mut_borrow_loc: 0,
            nop: 0,
            not: 0,
            or: 0,
            pack_generic_per_abs_mem_unit: 0,
            pack_per_abs_mem_unit: 0,
            pop: 0,
            read_ref_per_abs_mem_unit: 0,
            ret: 0,
            shl: 0,
            shr: 0,
            st_loc_per_abs_mem_unit: 0,
            sub: 0,
            unpack_generic_per_abs_mem_unit: 0,
            unpack_per_abs_mem_unit: 0,
            vec_imm_borrow_base: 0,
            vec_len_base: 0,
            vec_mut_borrow_base: 0,
            vec_pack_per_elem: 0,
            vec_pop_back_base: 0,
            vec_push_back_per_abs_mem_unit: 0,
            vec_swap_base: 0,
            vec_unpack_per_expected_elem: 0,
            write_ref_per_abs_mem_unit: 0,
            xor: 0,
        }
    }

    /// The default values used before any on-chain schedule exists.
    pub fn initial() -> (r: Self)
        ensures
            r.values() == Self::initial_values(),
    {
        InstructionGasParameters {
            abort: 1,
            add: 1,
            and: 1,
            bit_and: 2,
            bit_or: 2,
            br_false: 1,
            br_true: 1,
            branch: 1,
            call_generic_per_arg: 582,
            call_per_arg: 1132,
            cast_u128: 1,
            cast_u64: 1,
            cast_u8: 2,
            copy_loc_per_abs_mem_unit: 1,
            div: 3,
            eq_per_abs_mem_unit: 1,
            exists_generic_per_abs_mem_unit: 34,
            exists_per_abs_mem_unit: 41,
            freeze_ref: 1,
            ge: 1,
            gt: 1,
            imm_borrow_field: 1,
            imm_borrow_field_generic: 1,
            imm_borrow_global_base: 23,
            imm_borrow_global_generic_base: 14,
            imm_borrow_loc: 1,
            ld_const_per_byte: 1,
            ld_false: 1,
            ld_true: 1,
            ld_u128: 1,
            ld_u64: 1,
            ld_u8: 1,
            le: 2,
            lt: 1,
            mod_: 1,
            move_from_generic_per_abs_mem_unit: 13,
            move_from_per_abs_mem_unit: 459,
            move_loc_per_abs_mem_unit: 1,
            move_to_generic_per_abs_mem_unit: 27,
            move_to_per_abs_mem_unit: 13,
            mul: 1,
            mut_borrow_field: 1,
            mut_borrow_field_generic: 1,
            mut_borrow_global_base: 21,
            mut_borrow_global_generic_base: 15,
            mut_borrow_loc: 2,
            nop: 1,
            not: 1,
            or: 2,
            pack_generic_per_abs_mem_unit: 2,
            pack_per_abs_mem_unit: 2,
            pop: 1,
            read_ref_per_abs_mem_unit: 1,
            ret: 638,
            shl: 2,
            shr: 1,
            st_loc_per_abs_mem_unit: 1,
            sub: 1,
            unpack_generic_per_abs_mem_unit: 2,
            unpack_per_abs_mem_unit: 2,
            vec_imm_borrow_base: 1334,
            vec_len_base: 98,
            vec_mut_borrow_base: 1902,
            vec_pack_per_elem: 84,
            vec_pop_back_base: 227,
            vec_push_back_per_abs_mem_unit: 53,
            vec_swap_base: 1436,
            vec_unpack_per_expected_elem: 572,
            write_ref_per_abs_mem_unit: 1,
            xor: 1,
        }
    }

    /// The parameters in on-chain order.
    #[verifier::rlimit(60)]
    pub fn to_values(&self) -> (r: Vec<u64>)
        ensures
            r@ == self.values(),
    {
        let mut r: Vec<u64> = Vec::new();
        r.push(self.abort);
        r.push(self.add);
        r.push(self.and);
        r.push(self.bit_and);
        r.push(self.bit_or);
        r.push(self.br_false);
        r.push(self.br_true);
        r.push(self.branch);
        r.push(self.call_generic_per_arg);
        r.push(self.call_per_arg);
        r.push(self.cast_u128);
        r.push(self.cast_u64);
        r.push(self.cast_u8);
        r.push(self.copy_loc_per_abs_mem_unit);
        r.push(self.div);
        r.push(self.eq_per_abs_mem_unit);
        r.push(self.exists_generic_per_abs_mem_unit);
        r.push(self.exists_per_abs_mem_unit);
        r.push(self.freeze_ref);
        r.push(self.ge);
        r.push(self.gt);
        r.push(self.imm_borrow_field);
        r.push(self.imm_borrow_field_generic);
        r.push(self.imm_borrow_global_base);
        r.push(self.imm_borrow_global_generic_base);
        r.push(self.imm_borrow_loc);
        r.push(self.ld_const_per_byte);
        r.push(self.ld_false);
        r.push(self.ld_true);
        r.push(self.ld_u128);
        r.push(self.ld_u64);
        r.push(self.ld_u8);
        r.push(self.le);
        r.push(self.lt);
        r.push(self.mod_);
        r.push(self.move_from_generic_per_abs_mem_unit);
        r.push(self.move_from_per_abs_mem_unit);
        r.push(self.move_loc_per_abs_mem_unit);
        r.push(self.move_to_generic_per_abs_mem_unit);
        r.push(self.move_to_per_abs_mem_unit);
        r.push(self.mul);
        r.push(self.mut_borrow_field);
        r.push(self.mut_borrow_field_generic);
        r.push(self.mut_borrow_global_base);
        r.push(self.mut_borrow_global_generic_base);
        r.push(self.mut_borrow_loc);
        r.push(self.nop);
        r.push(self.not);
        r.push(self.or);
        r.push(self.pack_generic_per_abs_mem_unit);
        r.push(self.pack_per_abs_mem_unit);
        r.push(self.pop);
        r.push(self.read_ref_per_abs_mem_unit);
        r.push(self.ret);
        r.push(self.shl);
        r.push(self.shr);
        r.push(self.st_loc_per_abs_mem_unit);
        r.push(self.sub);
        r.push(self.unpack_generic_per_abs_mem_unit);
        r.push(self.unpack_per_abs_mem_unit);
        r.push(self.vec_imm_borrow_base);
        r.push(self.vec_len_base);
        r.push(self.vec_mut_borrow_base);
        r.push(self.vec_pack_per_elem);
        r.push(self.vec_pop_back_base);
        r.push(self.vec_push_back_per_abs_mem_unit);
        r.push(self.vec_swap_base);
        r.push(self.vec_unpack_per_expected_elem);
        r.push(self.write_ref_per_abs_mem_unit);
        r.push(self.xor);
        r
    }

    /// Builds the group from values in on-chain order.
    pub fn from_values(v: &Vec<u64>) -> (r: Self)
        requires
            v.len() == Self::COUNT,
        ensures
            r.values() == v@,
    {
        let r = InstructionGasParameters {
            abort: v[0],
            add: v[1],
            and: v[2],
            bit_and: v[3],
            bit_or: v[4],
            br_false: v[5],
            br_true: v[6],
            branch: v[7],
            call_generic_per_arg: v[8],
            call_per_arg: v[9],
            cast_u128: v[10],
            cast_u64: v[11],
            cast_u8: v[12],
            copy_loc_per_abs_mem_unit: v[13],
            div: v[14],
            eq_per_abs_mem_unit: v[15],
            exists_generic_per_abs_mem_unit: v[16],
            exists_per_abs_mem_unit: v[17],
            freeze_ref: v[18],
            ge: v[19],
            gt: v[20],
            imm_borrow_field: v[21],
            imm_borrow_field_generic: v[22],
            imm_borrow_global_base: v[23],
            imm_borrow_global_generic_base: v[24],
            imm_borrow_loc: v[25],
            ld_const_per_byte: v[26],
            ld_false: v[27],
            ld_true: v[28],
            ld_u128: v[29],
            ld_u64: v[30],
            ld_u8: v[31],
            le: v[32],
            lt: v[33],
            mod_: v[34],
            move_from_generic_per_abs_mem_unit: v[35],
            move_from_per_abs_mem_unit: v[36],
            move_loc_per_abs_mem_unit: v[37],
            move_to_generic_per_abs_mem_unit: v[38],
            move_to_per_abs_mem_unit: v[39],
            mul: v[40],
            mut_borrow_field: v[41],
            mut_borrow_field_generic: v[42],
            mut_borrow_global_base: v[43],
            mut_borrow_global_generic_base: v[44],
            mut_borrow_loc: v[45],
            nop: v[46],
            not: v[47],
            or: v[48],
            pack_generic_per_abs_mem_unit: v[49],
            pack_per_abs_mem_unit: v[50],
            pop: v[51],
            read_ref_per_abs_mem_unit: v[52],
            ret: v[53],
            shl: v[54],
            shr: v[55],
            st_loc_per_abs_mem_unit: v[56],
            sub: v[57],
            unpack_generic_per_abs_mem_unit: v[58],
            unpack_per_abs_mem_unit: v[59],
            vec_imm_borrow_base: v[60],
            vec_len_base: v[61],
            vec_mut_borrow_base: v[62],
            vec_pack_per_elem: v[63],
            vec_pop_back_base: v[64],
            vec_push_back_per_abs_mem_unit: v[65],
            vec_swap_base: v[66],
            vec_unpack_per_expected_elem: v[67],
            write_ref_per_abs_mem_unit: v[68],
            xor: v[69],
        };
        assert(r.values() =~= v@);
        r
    }

    /// The field part of each on-chain name, in on-chain order.
    #[verifier::rlimit(60)]
    pub fn field_name_list() -> (r: Vec<&'static str>)
        ensures
            r@ == Self::field_names(),
    {
        let mut r: Vec<&'static str> = Vec::new();
        r.push("abort");
        r.push("add");
        r.push("and");
        r.push("bit_and");
        r.push("bit_or");
        r.push("br_false");
        r.push("br_true");
        r.push("branch");
        r.push("call_generic_per_arg");
        r.push("call_per_arg");
        r.push("cast_u128");
        r.push("cast_u64");
        r.push("cast_u8");
        r.push("copy_loc_per_abs_mem_unit");
        r.push("div");
        r.push("eq_per_abs_mem_unit");
        r.push("exists_generic_per_abs_mem_unit");
        r.push("exists_per_abs_mem_unit");
        r.push("freeze_ref");
        r.push("ge");
        r.push("gt");
        r.push("imm_borrow_field");
        r.push("imm_borrow_field_generic");
        r.push("imm_borrow_global_base");
        r.push("imm_borrow_global_generic_base");
        r.push("imm_borrow_loc");
        r.push("ld_const_per_byte");
        r.push("ld_false");
        r.push("ld_true");
        r.push("ld_u128");
        r.push("ld_u64");
        r.push("ld_u8");
        r.push("le");
        r.push("lt");
        r.push("mod");
        r.push("move_from_generic_per_abs_mem_unit");
        r.push("move_from_per_abs_mem_unit");
        r.push("move_loc_per_abs_mem_unit");
        r.push("move_to_generic_per_abs_mem_unit");
        r.push("move_to_per_abs_mem_unit");
        r.push("mul");
        r.push("mut_borrow_field");
        r.push("mut_borrow_field_generic");
        r.push("mut_borrow_global_base");
        r.push("mut_borrow_global_generic_base");
        r.push("mut_borrow_loc");
        r.push("nop");
        r.push("not");
        r.push("or");
        r.push("pack_generic_per_abs_mem_unit");
        r.push("pack_per_abs_mem_unit");
        r.push("pop");
        r.push("read_ref_per_abs_mem_unit");
        r.push("ret");
        r.push("shl");
        r.push("shr");
        r.push("st_loc_per_abs_mem_unit");
        r.push("sub");
        r.push("unpack_generic_per_abs_mem_unit");
        r.push("unpack_per_abs_mem_unit");
        r.push("vec_imm_borrow_base");
        r.push("vec_len_base");
        r.push("vec_mut_borrow_base");
        r.push("vec_pack_per_elem");
        r.push("vec_pop_back_base");
        r.push("vec_push_back_per_abs_mem_unit");
        r.push("vec_swap_base");
        r.push("vec_unpack_per_expected_elem");
        r.push("write_ref_per_abs_mem_unit");
        r.push("xor");
        r
    }
}

/// Transaction-level costs and limits.
#[derive(Clone, Debug, PartialEq, Eq, Structural)]
pub struct TransactionGasParameters {
    pub default_account_size: u64,
    pub gas_unit_scaling_factor: u64,
    pub global_memory_per_byte_cost: u64,
    pub global_memory_per_byte_write_cost: u64,
    pub intrinsic_gas_per_byte: u64,
    pub max_price_per_gas_unit: u64,
    pub max_transaction_size_in_bytes: u64,
    pub maximum_number_of_gas_units: u64,
    pub min_price_per_gas_unit: u64,
    pub min_transaction_gas_units: u64,
}

impl TransactionGasParameters {
    /// The number of parameters in this group.
    pub const COUNT: usize = 10;

    /// The prefix of every on-chain name of this group.
    pub open spec fn prefix() -> Seq<char> {
        "txn."@
    }

    /// The parameters in on-chain order.
    pub open spec fn values(&self) -> Seq<u64> {
        seq![
            self.default_account_size,
            self.gas_unit_scaling_factor,
            self.global_memory_per_byte_cost,
            self.global_memory_per_byte_write_cost,
            self.intrinsic_gas_per_byte,
            self.max_price_per_gas_unit,
            self.max_transaction_size_in_bytes,
            self.maximum_number_of_gas_units,
            self.min_price_per_gas_unit,
            self.min_transaction_gas_units,
        ]
    }

    /// The field part of each on-chain name, in on-chain order.
    pub open spec fn field_names() -> Seq<&'static str> {
        seq![
            "default_account_size",
            "gas_unit_scaling_factor",
            "global_memory_per_byte_cost",
            "global_memory_per_byte_write_cost",
            "intrinsic_gas_per_byte",
            "max_price_per_gas_unit",
            "max_transaction_size_in_bytes",
            "maximum_number_of_gas_units",
            "min_price_per_gas_unit",
            "min_transaction_gas_units",
        ]
    }

    /// The full on-chain names, in on-chain order.
    pub open spec fn names() -> Seq<Seq<char>> {
        qualified(Self::prefix(), Self::field_names())
    }

    /// The values baked into the binary.
    pub open spec fn initial_values() -> Seq<u64> {
        seq![
            800,
            1,
            4,
            9,
            8,
            10000,
            40960,
            40000000,
            1,
            600,
        ]
    }

    /// Every parameter zero.
    pub fn zeros() -> (r: Self)
        ensures
            forall|i: int| 0 <= i < r.values().len() ==> r.values()[i] == 0,
    {
        TransactionGasParameters {
            default_account_size: 0,
            gas_unit_scaling_factor: 0,
            global_memory_per_byte_cost: 0,
            global_memory_per_byte_write_cost: 0,
            intrinsic_gas_per_byte: 0,
            max_price_per_gas_unit: 0,
            max_transaction_size_in_bytes: 0,
            maximum_number_of_gas_units: 0,
            min_price_per_gas_unit: 0,
            min_transaction_gas_units: 0,
        }
    }

    /// The default values used before any on-chain schedule exists.
    pub fn initial() -> (r: Self)
        ensures
            r.values() == Self::initial_values(),
    {
        TransactionGasParameters {
            default_account_size: 800,
            gas_unit_scaling_factor: 1,
            global_memory_per_byte_cost: 4,
            global_memory_per_byte_write_cost: 9,
            intrinsic_gas_per_byte: 8,
            max_price_per_gas_unit: 10000,
            max_transaction_size_in_bytes: 40960,
            maximum_number_of_gas_units: 40000000,
            min_price_per_gas_unit: 1,
            min_transaction_gas_units: 600,
        }
    }

    /// The parameters in on-chain order.
    pub fn to_values(&self) -> (r: Vec<u64>)
        ensures
            r@ == self.values(),
    {
        let mut r: Vec<u64> = Vec::new();
        r.push(self.default_account_size);
        r.push(self.gas_unit_scaling_factor);
        r.push(self.global_memory_per_byte_cost);
        r.push(self.global_memory_per_byte_write_cost);
        r.push(self.intrinsic_gas_per_byte);
        r.push(self.max_price_per_gas_unit);
        r.push(self.max_transaction_size_in_bytes);
        r.push(self.maximum_number_of_gas_units);
        r.push(self.min_price_per_gas_unit);
        r.push(self.min_transaction_gas_units);
        r
    }

    /// Builds the group from values in on-chain order.
    pub fn from_values(v: &Vec<u64>) -> (r: Self)
        requires
            v.len() == Self::COUNT,
        ensures
            r.values() == v@,
    {
        let r = TransactionGasParameters {
            default_account_size: v[0],
            gas_unit_scaling_factor: v[1],
            global_memory_per_byte_cost: v[2],
            global_memory_per_byte_write_cost: v[3],
            intrinsic_gas_per_byte: v[4],
            max_price_per_gas_unit: v[5],
            max_transaction_size_in_bytes: v[6],
            maximum_number_of_gas_units: v[7],
            min_price_per_gas_unit: v[8],
            min_transaction_gas_units: v[9],
        };
        assert(r.values() =~= v@);
        r
    }

    /// The field part of each on-chain name, in on-chain order.
    pub fn field_name_list() -> (r: Vec<&'static str>)
        ensures
            r@ == Self::field_names(),
    {
        let mut r: Vec<&'static str> = Vec::new();
        r.push("default_account_size");
        r.push("gas_unit_scaling_factor");
        r.push("global_memory_per_byte_cost");
        r.push("global_memory_per_byte_write_cost");
        r.push("intrinsic_gas_per_byte");
        r.push("max_price_per_gas_unit");
        r.push("max_transaction_size_in_bytes");
        r.push("maximum_number_of_gas_units");
        r.push("min_price_per_gas_unit");
        r.push("min_transaction_gas_units");
        r
    }
}

/// Costs of the Move standard library's native functions.
#[derive(Clone, Debug, PartialEq, Eq, Structural)]
pub struct MoveStdlibGasParameters {
    pub bcs_to_bytes_failure: u64,
    pub bcs_to_bytes_per_byte_serialized: u64,
    pub hash_sha2_256_base: u64,
    pub hash_sha2_256_per_byte: u64,
    pub hash_sha3_256_base: u64,
    pub hash_sha3_256_per_byte: u64,
    pub signer_borrow_address_base: u64,
    pub string_check_utf8_base: u64,
    pub string_check_utf8_per_byte: u64,
    pub string_sub_string_base: u64,
}

impl MoveStdlibGasParameters {
    /// The number of parameters in this group.
    pub const COUNT: usize = 10;

    /// The prefix of every on-chain name of this group.
    pub open spec fn prefix() -> Seq<char> {
        "move_stdlib."@
    }

    /// The parameters in on-chain order.
    pub open spec fn values(&self) -> Seq<u64> {
        seq![
            self.bcs_to_bytes_failure,
            self.bcs_to_bytes_per_byte_serialized,
            self.hash_sha2_256_base,
            self.hash_sha2_256_per_byte,
            self.hash_sha3_256_base,
            self.hash_sha3_256_per_byte,
            self.signer_borrow_address_base,
            self.string_check_utf8_base,
            self.string_check_utf8_per_byte,
            self.string_sub_string_base,
        ]
    }

    /// The field part of each on-chain name, in on-chain order.
    pub open spec fn field_names() -> Seq<&'static str> {
        seq![
            "bcs.to_bytes.failure",
            "bcs.to_bytes.per_byte_serialized",
            "hash.sha2_256.base",
            "hash.sha2_256.per_byte",
            "hash.sha3_256.base",
            "hash.sha3_256.per_byte",
            "signer.borrow_address.base",
            "string.check_utf8.base",
            "string.check_utf8.per_byte",
            "string.sub_string.base",
        ]
    }

    /// The full on-chain names, in on-chain order.
    pub open spec fn names() -> Seq<Seq<char>> {
        qualified(Self::prefix(), Self::field_names())
    }

    /// The values baked into the binary.
    pub open spec fn initial_values() -> Seq<u64> {
        seq![
            1000,
            10,
            3000,
            50,
            4000,
            45,
            200,
            300,
            15,
            400,
        ]
    }

    /// Every parameter zero.
    pub fn zeros() -> (r: Self)
        ensures
            forall|i: int| 0 <= i < r.values().len() ==> r.values()[i] == 0,
    {
        MoveStdlibGasParameters {
            bcs_to_bytes_failure: 0,
            bcs_to_bytes_per_byte_serialized: 0,
            hash_sha2_256_base: 0,
            hash_sha2_256_per_byte: 0,
            hash_sha3_256_base: 0,
            hash_sha3_256_per_byte: 0,
            signer_borrow_address_base: 0,
            string_check_utf8_base: 0,
            string_check_utf8_per_byte: 0,
            string_sub_string_base: 0,
        }
    }

    /// The default values used before any on-chain schedule exists.
    pub fn initial() -> (r: Self)
        ensures
            r.values() == Self::initial_values(),
    {
        MoveStdlibGasParameters {
            bcs_to_bytes_failure: 1000,
            bcs_to_bytes_per_byte_serialized: 10,
            hash_sha2_256_base: 3000,
            hash_sha2_256_per_byte: 50,
            hash_sha3_256_base: 4000,
            hash_sha3_256_per_byte: 45,
            signer_borrow_address_base: 200,
            string_check_utf8_base: 300,
            string_check_utf8_per_byte: 15,
            string_sub_string_base: 400,
        }
    }

    /// The parameters in on-chain order.
    pub fn to_values(&self) -> (r: Vec<u64>)
        ensures
            r@ == self.values(),
    {
        let mut r: Vec<u64> = Vec::new();
        r.push(self.bcs_to_bytes_failure);
        r.push(self.bcs_to_bytes_per_byte_serialized);
        r.push(self.hash_sha2_256_base);
        r.push(self.hash_sha2_256_per_byte);
        r.push(self.hash_sha3_256_base);
        r.push(self.hash_sha3_256_per_byte);
        r.push(self.signer_borrow_address_base);
        r.push(self.string_check_utf8_base);
        r.push(self.string_check_utf8_per_byte);
        r.push(self.string_sub_string_base);
        r
    }

    /// Builds the group from values in on-chain order.
    pub fn from_values(v: &Vec<u64>) -> (r: Self)
        requires
            v.len() == Self::COUNT,
        ensures
            r.values() == v@,
    {
        let r = MoveStdlibGasParameters {
            bcs_to_bytes_failure: v[0],
            bcs_to_bytes_per_byte_serialized: v[1],
            hash_sha2_256_base: v[2],
            hash_sha2_256_per_byte: v[3],
            hash_sha3_256_base: v[4],
            hash_sha3_256_per_byte: v[5],
            signer_borrow_address_base: v[6],
            string_check_utf8_base: v[7],
            string_check_utf8_per_byte: v[8],
            string_sub_string_base: v[9],
        };
        assert(r.values() =~= v@);
        r
    }

    /// The field part of each on-chain name, in on-chain order.
    pub fn field_name_list() -> (r: Vec<&'static str>)
        ensures
            r@ == Self::field_names(),
    {
        let mut r: Vec<&'static str> = Vec::new();
        r.push("bcs.to_bytes.failure");
        r.push("bcs.to_bytes.per_byte_serialized");
        r.push("hash.sha2_256.base");
        r.push("hash.sha2_256.per_byte");
        r.push("hash.sha3_256.base");
        r.push("hash.sha3_256.per_byte");
        r.push("signer.borrow_address.base");
        r.push("string.check_utf8.base");
        r.push("string.check_utf8.per_byte");
        r.push("string.sub_string.base");
        r
    }
}

/// Costs of the nursery extensions' native functions.
#[derive(Clone, Debug, PartialEq, Eq, Structural)]
pub struct NurseryGasParameters {
    pub debug_print_base_cost: u64,
    pub debug_print_stack_trace_base_cost: u64,
    pub event_write_to_event_store_unit_cost: u64,
}

impl NurseryGasParameters {
    /// The number of parameters in this group.
    pub const COUNT: usize = 3;

    /// The prefix of every on-chain name of this group.
    pub open spec fn prefix() -> Seq<char> {
        "nursery."@
    }

    /// The parameters in on-chain order.
    pub open spec fn values(&self) -> Seq<u64> {
        seq![
            self.debug_print_base_cost,
            self.debug_print_stack_trace_base_cost,
            self.event_write_to_event_store_unit_cost,
        ]
    }

    /// The field part of each on-chain name, in on-chain order.
    pub open spec fn field_names() -> Seq<&'static str> {
        seq![
            "debug.print.base_cost",
            "debug.print_stack_trace.base_cost",
            "event.write_to_event_store.unit_cost",
        ]
    }

    /// The full on-chain names, in on-chain order.
    pub open spec fn names() -> Seq<Seq<char>> {
        qualified(Self::prefix(), Self::field_names())
    }

    /// The values baked into the binary.
    pub open spec fn initial_values() -> Seq<u64> {
        seq![
            1,
            1,
            20,
        ]
    }

    /// Every parameter zero.
    pub fn zeros() -> (r: Self)
        ensures
            forall|i: int| 0 <= i < r.values().len() ==> r.values()[i] == 0,
    {
        NurseryGasParameters {
            debug_print_base_cost: 0,
            debug_print_stack_trace_base_cost: 0,
            event_write_to_event_store_unit_cost: 0,
        }
    }

    /// The default values used before any on-chain schedule exists.
    pub fn initial() -> (r: Self)
        ensures
            r.values() == Self::initial_values(),
    {
        NurseryGasParameters {
            debug_print_base_cost: 1,
            debug_print_stack_trace_base_cost: 1,
            event_write_to_event_store_unit_cost: 20,
        }
    }

    /// The parameters in on-chain order.
    pub fn to_values(&self) -> (r: Vec<u64>)
        ensures
            r@ == self.values(),
    {
        let mut r: Vec<u64> = Vec::new();
        r.push(self.debug_print_base_cost);
        r.push(self.debug_print_stack_trace_base_cost);
        r.push(self.event_write_to_event_store_unit_cost);
        r
    }

    /// Builds the group from values in on-chain order.
    pub fn from_values(v: &Vec<u64>) -> (r: Self)
        requires
            v.len() == Self::COUNT,
        ensures
            r.values() == v@,
    {
        let r = NurseryGasParameters {
            debug_print_base_cost: v[0],
            debug_print_stack_trace_base_cost: v[1],
            event_write_to_event_store_unit_cost: v[2],
        };
        assert(r.values() =~= v@);
        r
    }

    /// The field part of each on-chain name, in on-chain order.
    pub fn field_name_list() -> (r: Vec<&'static str>)
        ensures
            r@ == Self::field_names(),
    {
        let mut r: Vec<&'static str> = Vec::new();
        r.push("debug.print.base_cost");
        r.push("debug.print_stack_trace.base_cost");
        r.push("event.write_to_event_store.unit_cost");
        r
    }
}

/// Costs of the chain-specific native functions.
#[derive(Clone, Debug, PartialEq, Eq, Structural)]
pub struct StarcoinNativesGasParameters {
    pub account_create_signer_base: u64,
    pub account_destroy_signer_base: u64,
    pub hash_keccak256_base: u64,
    pub hash_keccak256_per_byte: u64,
    pub hash_ripemd160_base: u64,
    pub hash_ripemd160_per_byte: u64,
    pub signature_ed25519_validate_key_base: u64,
    pub signature_ed25519_verify_base: u64,
    pub signature_ed25519_verify_per_byte: u64,
    pub token_name_of_base: u64,
}

impl StarcoinNativesGasParameters {
    /// The number of parameters in this group.
    pub const COUNT: usize = 10;

    /// The prefix of every on-chain name of this group.
    pub open spec fn prefix() -> Seq<char> {
        "starcoin_natives."@
    }

    /// The parameters in on-chain order.
    pub open spec fn values(&self) -> Seq<u64> {
        seq![
            self.account_create_signer_base,
            self.account_destroy_signer_base,
            self.hash_keccak256_base,
            self.hash_keccak256_per_byte,
            self.hash_ripemd160_base,
            self.hash_ripemd160_per_byte,
            self.signature_ed25519_validate_key_base,
            self.signature_ed25519_verify_base,
            self.signature_ed25519_verify_per_byte,
            self.token_name_of_base,
        ]
    }

    /// The field part of each on-chain name, in on-chain order.
    pub open spec fn field_names() -> Seq<&'static str> {
        seq![
            "account.create_signer.base",
            "account.destroy_signer.base",
            "hash.keccak256.base",
            "hash.keccak256.per_byte",
            "hash.ripemd160.base",
            "hash.ripemd160.per_byte",
            "signature.ed25519_validate_key.base",
            "signature.ed25519_verify.base",
            "signature.ed25519_verify.per_byte",
            "token.name_of.base",
        ]
    }

    /// The full on-chain names, in on-chain order.
    pub open spec fn names() -> Seq<Seq<char>> {
        qualified(Self::prefix(), Self::field_names())
    }

    /// The values baked into the binary.
    pub open spec fn initial_values() -> Seq<u64> {
        seq![
            24,
            212,
            3000,
            50,
            3000,
            50,
            26,
            61,
            1,
            2002,
        ]
    }

    /// Every parameter zero.
    pub fn zeros() -> (r: Self)
        ensures
            forall|i: int| 0 <= i < r.values().len() ==> r.values()[i] == 0,
    {
        StarcoinNativesGasParameters {
            account_create_signer_base: 0,
            account_destroy_signer_base: 0,
            hash_keccak256_base: 0,
            hash_keccak256_per_byte: 0,
            hash_ripemd160_base: 0,
            hash_ripemd160_per_byte: 0,
            signature_ed25519_validate_key_base: 0,
            signature_ed25519_verify_base: 0,
            signature_ed25519_verify_per_byte: 0,
            token_name_of_base: 0,
        }
    }

    /// The default values used before any on-chain schedule exists.
    pub fn initial() -> (r: Self)
        ensures
            r.values() == Self::initial_values(),
    {
        StarcoinNativesGasParameters {
            account_create_signer_base: 24,
            account_destroy_signer_base: 212,
            hash_keccak256_base: 3000,
            hash_keccak256_per_byte: 50,
            hash_ripemd160_base: 3000,
            hash_ripemd160_per_byte: 50,
            signature_ed25519_validate_key_base: 26,
            signature_ed25519_verify_base: 61,
            signature_ed25519_verify_per_byte: 1,
            token_name_of_base: 2002,
        }
    }

    /// The parameters in on-chain order.
    pub fn to_values(&self) -> (r: Vec<u64>)
        ensures
            r@ == self.values(),
    {
        let mut r: Vec<u64> = Vec::new();
        r.push(self.account_create_signer_base);
        r.push(self.account_destroy_signer_base);
        r.push(self.hash_keccak256_base);
        r.push(self.hash_keccak256_per_byte);
        r.push(self.hash_ripemd160_base);
        r.push(self.hash_ripemd160_per_byte);
        r.push(self.signature_ed25519_validate_key_base);
        r.push(self.signature_ed25519_verify_base);
        r.push(self.signature_ed25519_verify_per_byte);
        r.push(self.token_name_of_base);
        r
    }

    /// Builds the group from values in on-chain order.
    pub fn from_values(v: &Vec<u64>) -> (r: Self)
        requires
            v.len() == Self::COUNT,
        ensures
            r.values() == v@,
    {
        let r = StarcoinNativesGasParameters {
            account_create_signer_base: v[0],
            account_destroy_signer_base: v[1],
            hash_keccak256_base: v[2],
            hash_keccak256_per_byte: v[3],
            hash_ripemd160_base: v[4],
            hash_ripemd160_per_byte: v[5],
            signature_ed25519_validate_key_base: v[6],
            signature_ed25519_verify_base: v[7],
            signature_ed25519_verify_per_byte: v[8],
            token_name_of_base: v[9],
        };
        assert(r.values() =~= v@);
        r
    }

    /// The field part of each on-chain name, in on-chain order.
    pub fn field_name_list() -> (r: Vec<&'static str>)
        ensures
            r@ == Self::field_names(),
    {
        let mut r: Vec<&'static str> = Vec::new();
        r.push("account.create_signer.base");
        r.push("account.destroy_signer.base");
        r.push("hash.keccak256.base");
        r.push("hash.keccak256.per_byte");
        r.push("hash.ripemd160.base");
        r.push("hash.ripemd160.per_byte");
        r.push("signature.ed25519_validate_key.base");
        r.push("signature.ed25519_verify.base");
        r.push("signature.ed25519_verify.per_byte");
        r.push("token.name_of.base");
        r
    }
}

/// Costs of the table extension's native functions.
#[derive(Clone, Debug, PartialEq, Eq, Structural)]
pub struct TableGasParameters {
    pub add_box_base: u64,
    pub borrow_box_base: u64,
    pub common_load_base: u64,
    pub common_load_per_byte: u64,
    pub contains_box_base: u64,
    pub destroy_empty_box_base: u64,
    pub new_table_handle_base: u64,
    pub remove_box_base: u64,
}

impl TableGasParameters {
    /// The number of parameters in this group.
    pub const COUNT: usize = 8;

    /// The prefix of every on-chain name of this group.
    pub open spec fn prefix() -> Seq<char> {
        "table."@
    }

    /// The parameters in on-chain order.
    pub open spec fn values(&self) -> Seq<u64> {
        seq![
            self.add_box_base,
            self.borrow_box_base,
            self.common_load_base,
            self.common_load_per_byte,
            self.contains_box_base,
            self.destroy_empty_box_base,
            self.new_table_handle_base,
            self.remove_box_base,
        ]
    }

    /// The field part of each on-chain name, in on-chain order.
    pub open spec fn field_names() -> Seq<&'static str> {
        seq![
            "add_box.base",
            "borrow_box.base",
            "common.load.base",
            "common.load.per_byte",
            "contains_box.base",
            "destroy_empty_box.base",
            "new_table_handle.base",
            "remove_box.base",
        ]
    }

    /// The full on-chain names, in on-chain order.
    pub open spec fn names() -> Seq<Seq<char>> {
        qualified(Self::prefix(), Self::field_names())
    }

    /// The values baked into the binary.
    pub open spec fn initial_values() -> Seq<u64> {
        seq![
            4,
            10,
            8,
            1,
            40,
            20,
            4,
            24,
        ]
    }

    /// Every parameter zero.
    pub fn zeros() -> (r: Self)
        ensures
            forall|i: int| 0 <= i < r.values().len() ==> r.values()[i] == 0,
    {
        TableGasParameters {
            add_box_base: 0,
            borrow_box_base: 0,
            common_load_base: 0,
            common_load_per_byte: 0,
            contains_box_base: 0,
            destroy_empty_box_base: 0,
            new_table_handle_base: 0,
            remove_box_base: 0,
        }
    }

    /// The default values used before any on-chain schedule exists.
    pub fn initial() -> (r: Self)
        ensures
            r.values() == Self::initial_values(),
    {
        TableGasParameters {
            add_box_base: 4,
            borrow_box_base: 10,
            common_load_base: 8,
            common_load_per_byte: 1,
            contains_box_base: 40,
            destroy_empty_box_base: 20,
            new_table_handle_base: 4,
            remove_box_base: 24,
        }
    }

    /// The parameters in on-chain order.
    pub fn to_values(&self) -> (r: Vec<u64>)
        ensures
            r@ == self.values(),
    {
        let mut r: Vec<u64> = Vec::new();
        r.push(self.add_box_base);
        r.push(self.borrow_box_base);
        r.push(self.common_load_base);
        r.push(self.common_load_per_byte);
        r.push(self.contains_box_base);
        r.push(self.destroy_empty_box_base);
        r.push(self.new_table_handle_base);
        r.push(self.remove_box_base);
        r
    }

    /// Builds the group from values in on-chain order.
    pub fn from_values(v: &Vec<u64>) -> (r: Self)
        requires
            v.len() == Self::COUNT,
        ensures
            r.values() == v@,
    {
        let r = TableGasParameters {
            add_box_base: v[0],
            borrow_box_base: v[1],
            common_load_base: v[2],
            common_load_per_byte: v[3],
            contains_box_base: v[4],
            destroy_empty_box_base: v[5],
            new_table_handle_base: v[6],
            remove_box_base: v[7],
        };
        assert(r.values() =~= v@);
        r
    }

    /// The field part of each on-chain name, in on-chain order.
    pub fn field_name_list() -> (r: Vec<&'static str>)
        ensures
            r@ == Self::field_names(),
    {
        let mut r: Vec<&'static str> = Vec::new();
        r.push("add_box.base");
        r.push("borrow_box.base");
        r.push("common.load.base");
        r.push("common.load.per_byte");
        r.push("contains_box.base");
        r.push("destroy_empty_box.base");
        r.push("new_table_handle.base");
        r.push("remove_box.base");
        r
    }
}

impl InstructionGasParameters {
    /// Whether every parameter is zero.
    pub open spec fn all_zero(&self) -> bool {
        forall|i: int| 0 <= i < self.values().len() ==> self.values()[i] == 0
    }

    /// Every field of an all-zero group is zero.
    pub proof fn lemma_all_zero_fields(&self)
        requires
            self.all_zero(),
        ensures
            self.abort == 0,
            self.add == 0,
            self.and == 0,
            self.bit_and == 0,
            self.bit_or == 0,
            self.br_false == 0,
            self.br_true == 0,
            self.branch == 0,
            self.call_generic_per_arg == 0,
            self.call_per_arg == 0,
            self.cast_u128 == 0,
            self.cast_u64 == 0,
            self.cast_u8 == 0,
            self.copy_loc_per_abs_mem_unit == 0,
            self.div == 0,
            self.eq_per_abs_mem_unit == 0,
            self.exists_generic_per_abs_mem_unit == 0,
            self.exists_per_abs_mem_unit == 0,
            self.freeze_ref == 0,
            self.ge == 0,
            self.gt == 0,
            self.imm_borrow_field == 0,
            self.imm_borrow_field_generic == 0,
            self.imm_borrow_global_base == 0,
            self.imm_borrow_global_generic_base == 0,
            self.imm_borrow_loc == 0,
            self.ld_const_per_byte == 0,
            self.ld_false == 0,
            self.ld_true == 0,
            self.ld_u128 == 0,
            self.ld_u64 == 0,
            self.ld_u8 == 0,
            self.le == 0,
            self.lt == 0,
            self.mod_ == 0,
            self.move_from_generic_per_abs_mem_unit == 0,
            self.move_from_per_abs_mem_unit == 0,
            self.move_loc_per_abs_mem_unit == 0,
            self.move_to_generic_per_abs_mem_unit == 0,
            self.move_to_per_abs_mem_unit == 0,
            self.mul == 0,
            self.mut_borrow_field == 0,
            self.mut_borrow_field_generic == 0,
            self.mut_borrow_global_base == 0,
            self.mut_borrow_global_generic_base == 0,
            self.mut_borrow_loc == 0,
            self.nop == 0,
            self.not == 0,
            self.or == 0,
            self.pack_generic_per_abs_mem_unit == 0,
            self.pack_per_abs_mem_unit == 0,
            self.pop == 0,
            self.read_ref_per_abs_mem_unit == 0,
            self.ret == 0,
            self.shl == 0,
            self.shr == 0,
            self.st_loc_per_abs_mem_unit == 0,
            self.sub == 0,
            self.unpack_generic_per_abs_mem_unit == 0,
            self.unpack_per_abs_mem_unit == 0,
            self.vec_imm_borrow_base == 0,
            self.vec_len_base == 0,
            self.vec_mut_borrow_base == 0,
            self.vec_pack_per_elem == 0,
            self.vec_pop_back_base == 0,
            self.vec_push_back_per_abs_mem_unit == 0,
            self.vec_swap_base == 0,
            self.vec_unpack_per_expected_elem == 0,
            self.write_ref_per_abs_mem_unit == 0,
            self.xor == 0,
    {
        assert(self.values()[0] == 0);
        assert(self.values()[1] == 0);
        assert(self.values()[2] == 0);
        assert(self.values()[3] == 0);
        assert(self.values()[4] == 0);
        assert(self.values()[5] == 0);
        assert(self.values()[6] == 0);
        assert(self.values()[7] == 0);
        assert(self.values()[8] == 0);
        assert(self.values()[9] == 0);
        assert(self.values()[10] == 0);
        assert(self.values()[11] == 0);
        assert(self.values()[12] == 0);
        assert(self.values()[13] == 0);
        assert(self.values()[14] == 0);
        assert(self.values()[15] == 0);
        assert(self.values()[16] == 0);
        assert(self.values()[17] == 0);
        assert(self.values()[18] == 0);
        assert(self.values()[19] == 0);
        assert(self.values()[20] == 0);
        assert(self.values()[21] == 0);
        assert(self.values()[22] == 0);
        assert(self.values()[23] == 0);
        assert(self.values()[24] == 0);
        assert(self.values()[25] == 0);
        assert(self.values()[26] == 0);
        assert(self.values()[27] == 0);
        assert(self.values()[28] == 0);
        assert(self.values()[29] == 0);
        assert(self.values()[30] == 0);
        assert(self.values()[31] == 0);
        assert(self.values()[32] == 0);
        assert(self.values()[33] == 0);
        assert(self.values()[34] == 0);
        assert(self.values()[35] == 0);
        assert(self.values()[36] == 0);
        assert(self.values()[37] == 0);
        assert(self.values()[38] == 0);
        assert(self.values()[39] == 0);
        assert(self.values()[40] == 0);
        assert(self.values()[41] == 0);
        assert(self.values()[42] == 0);
        assert(self.values()[43] == 0);
        assert(self.values()[44] == 0);
        assert(self.values()[45] == 0);
        assert(self.values()[46] == 0);
        assert(self.values()[47] == 0);
        assert(self.values()[48] == 0);
        assert(self.values()[49] == 0);
        assert(self.values()[50] == 0);
        assert(self.values()[51] == 0);
        assert(self.values()[52] == 0);
        assert(self.values()[53] == 0);
        assert(self.values()[54] == 0);
        assert(self.values()[55] == 0);
        assert(self.values()[56] == 0);
        assert(self.values()[57] == 0);
        assert(self.values()[58] == 0);
        assert(self.values()[59] == 0);
        assert(self.values()[60] == 0);
        assert(self.values()[61] == 0);
        assert(self.values()[62] == 0);
        assert(self.values()[63] == 0);
        assert(self.values()[64] == 0);
        assert(self.values()[65] == 0);
        assert(self.values()[66] == 0);
        assert(self.values()[67] == 0);
        assert(self.values()[68] == 0);
        assert(self.values()[69] == 0);
    }
}

impl TransactionGasParameters {
    /// Whether every parameter is zero.
    pub open spec fn all_zero(&self) -> bool {
        forall|i: int| 0 <= i < self.values().len() ==> self.values()[i] == 0
    }

    /// Every field of an all-zero group is zero.
    pub proof fn lemma_all_zero_fields(&self)
        requires
            self.all_zero(),
        ensures
            self.default_account_size == 0,
            self.gas_unit_scaling_factor == 0,
            self.global_memory_per_byte_cost == 0,
            self.global_memory_per_byte_write_cost == 0,
            self.intrinsic_gas_per_byte == 0,
            self.max_price_per_gas_unit == 0,
            self.max_transaction_size_in_bytes == 0,
            self.maximum_number_of_gas_units == 0,
            self.min_price_per_gas_unit == 0,
            self.min_transaction_gas_units == 0,
    {
        assert(self.values()[0] == 0);
        assert(self.values()[1] == 0);
        assert(self.values()[2] == 0);
        assert(self.values()[3] == 0);
        assert(self.values()[4] == 0);
        assert(self.values()[5] == 0);
        assert(self.values()[6] == 0);
        assert(self.values()[7] == 0);
        assert(self.values()[8] == 0);
        assert(self.values()[9] == 0);
    }
}

/// The instructions whose cost is one constant each.
#[derive(Clone, Copy, Debug, PartialEq, Eq, Structural)]
pub enum SimpleInstruction {
    Nop,
    Ret,
    BrTrue,
    BrFalse,
    Branch,
    LdU8,
    LdU64,
    LdU128,
    LdTrue,
    LdFalse,
    FreezeRef,
    MutBorrowLoc,
    ImmBorrowLoc,
    ImmBorrowField,
    MutBorrowField,
    ImmBorrowFieldGeneric,
    MutBorrowFieldGeneric,
    Pop,
    CastU8,
    CastU64,
    CastU128,
    Add,
    Sub,
    Mul,
    Mod,
    Div,
    BitOr,
    BitAnd,
    Xor,
    Shl,
    Shr,
    Or,
    And,
    Not,
    Lt,
    Gt,
    Le,
    Ge,
    Abort,
}

impl InstructionGasParameters {
    /// The constant that `instr` costs.
    pub open spec fn simple_cost(&self, instr: SimpleInstruction) -> u64 {
        match instr {
            SimpleInstruction::Nop => self.nop,
            SimpleInstruction::Ret => self.ret,
            SimpleInstruction::BrTrue => self.br_true,
            SimpleInstruction::BrFalse => self.br_false,
            SimpleInstruction::Branch => self.branch,
            SimpleInstruction::LdU8 => self.ld_u8,
            SimpleInstruction::LdU64 => self.ld_u64,
            SimpleInstruction::LdU128 => self.ld_u128,
            SimpleInstruction::LdTrue => self.ld_true,
            SimpleInstruction::LdFalse => self.ld_false,
            SimpleInstruction::FreezeRef => self.freeze_ref,
            SimpleInstruction::MutBorrowLoc => self.mut_borrow_loc,
            SimpleInstruction::ImmBorrowLoc => self.imm_borrow_loc,
            SimpleInstruction::ImmBorrowField => self.imm_borrow_field,
            SimpleInstruction::MutBorrowField => self.mut_borrow_field,
            SimpleInstruction::ImmBorrowFieldGeneric => self.imm_borrow_field_generic,
            SimpleInstruction::MutBorrowFieldGeneric => self.mut_borrow_field_generic,
            SimpleInstruction::Pop => self.pop,
            SimpleInstruction::CastU8 => self.cast_u8,
            SimpleInstruction::CastU64 => self.cast_u64,
            SimpleInstruction::CastU128 => self.cast_u128,
            SimpleInstruction::Add => self.add,
            SimpleInstruction::Sub => self.sub,
            SimpleInstruction::Mul => self.mul,
            SimpleInstruction::Mod => self.mod_,
            SimpleInstruction::Div => self.div,
            SimpleInstruction::BitOr => self.bit_or,
            SimpleInstruction::BitAnd => self.bit_and,
            SimpleInstruction::Xor => self.xor,
            SimpleInstruction::Shl => self.shl,
            SimpleInstruction::Shr => self.shr,
            SimpleInstruction::Or => self.or,
            SimpleInstruction::And => self.and,
            SimpleInstruction::Not => self.not,
            SimpleInstruction::Lt => self.lt,
            SimpleInstruction::Gt => self.gt,
            SimpleInstruction::Le => self.le,
            SimpleInstruction::Ge => self.ge,
            SimpleInstruction::Abort => self.abort,
        }
    }

    /// The constant that `instr` costs.
    pub fn simple_instr_cost(&self, instr: SimpleInstruction) -> (r: InternalGas)
        ensures
            r.0 == self.simple_cost(instr),
    {
        let c = match instr {
            SimpleInstruction::Nop => self.nop,
            SimpleInstruction::Ret => self.ret,
            SimpleInstruction::BrTrue => self.br_true,
            SimpleInstruction::BrFalse => self.br_false,
            SimpleInstruction::Branch => self.branch,
            SimpleInstruction::LdU8 => self.ld_u8,
            SimpleInstruction::LdU64 => self.ld_u64,
            SimpleInstruction::LdU128 => self.ld_u128,
            SimpleInstruction::LdTrue => self.ld_true,
            SimpleInstruction::LdFalse => self.ld_false,
            SimpleInstruction::FreezeRef => self.freeze_ref,
            SimpleInstruction::MutBorrowLoc => self.mut_borrow_loc,
            SimpleInstruction::ImmBorrowLoc => self.imm_borrow_loc,
            SimpleInstruction::ImmBorrowField => self.imm_borrow_field,
            SimpleInstruction::MutBorrowField => self.mut_borrow_field,
            SimpleInstruction::ImmBorrowFieldGeneric => self.imm_borrow_field_generic,
            SimpleInstruction::MutBorrowFieldGeneric => self.mut_borrow_field_generic,
            SimpleInstruction::Pop => self.pop,
            SimpleInstruction::CastU8 => self.cast_u8,
            SimpleInstruction::CastU64 => self.cast_u64,
            SimpleInstruction::CastU128 => self.cast_u128,
            SimpleInstruction::Add => self.add,
            SimpleInstruction::Sub => self.sub,
            SimpleInstruction::Mul => self.mul,
            SimpleInstruction::Mod => self.mod_,
            SimpleInstruction::Div => self.div,
            SimpleInstruction::BitOr => self.bit_or,
            SimpleInstruction::BitAnd => self.bit_and,
            SimpleInstruction::Xor => self.xor,
            SimpleInstruction::Shl => self.shl,
            SimpleInstruction::Shr => self.shr,
            SimpleInstruction::Or => self.or,
            SimpleInstruction::And => self.and,
            SimpleInstruction::Not => self.not,
            SimpleInstruction::Lt => self.lt,
            SimpleInstruction::Gt => self.gt,
            SimpleInstruction::Le => self.le,
            SimpleInstruction::Ge => self.ge,
            SimpleInstruction::Abort => self.abort,
        };
        InternalGas(c)
    }
}

impl TransactionGasParameters {
    /// The entry fee of a transaction of `size` bytes: a base cost plus a
    /// per-byte rate times the size.
    pub open spec fn intrinsic_cost(&self, size: u64) -> u64 {
        add_sat(self.min_transaction_gas_units, mul_sat(self.intrinsic_gas_per_byte, size))
    }

    /// The cost charged in the end for a transaction's write set: the
    /// per-byte write cost of one default-sized account.
    pub open spec fn write_set_cost(&self) -> u64 {
        mul_sat(self.global_memory_per_byte_write_cost, self.default_account_size)
    }

    /// External gas converted to internal gas by the scale factor.
    pub open spec fn internal_of(&self, gas: u64) -> u64 {
        mul_sat(gas, self.gas_unit_scaling_factor)
    }

    /// Internal gas converted to external gas, rounding down (zero when the
    /// scale factor is zero, since nothing is then backed).
    pub open spec fn external_of(&self, gas: u64) -> u64 {
        if self.gas_unit_scaling_factor == 0 {
            0
        } else {
            gas / self.gas_unit_scaling_factor
        }
    }

    pub fn calculate_intrinsic_gas(&self, txn_size: NumBytes) -> (r: InternalGas)
        ensures
            r.0 == self.intrinsic_cost(txn_size.0),
    {
        let per_byte = scale(self.intrinsic_gas_per_byte, txn_size.0);
        InternalGas(saturating_add(self.min_transaction_gas_units, per_byte.0))
    }

    pub fn cal_write_set_gas(&self) -> (r: InternalGas)
        ensures
            r.0 == self.write_set_cost(),
    {
        scale(self.global_memory_per_byte_write_cost, self.default_account_size)
    }

    pub fn to_internal(&self, gas: Gas) -> (r: InternalGas)
        ensures
            r.0 == self.internal_of(gas.0),
    {
        scale(gas.0, self.gas_unit_scaling_factor)
    }

    pub fn to_external_round_down(&self, gas: InternalGas) -> (r: Gas)
        ensures
            r.0 == self.external_of(gas.0),
    {
        match gas.0.checked_div(self.gas_unit_scaling_factor) {
            Some(v) => Gas(v),
            None => Gas(0),
        }
    }
}

/// Gas parameters for all native functions, one group per library.
#[derive(Clone, Debug, PartialEq, Eq, Structural)]
pub struct NativeGasParameters {
    pub move_stdlib: MoveStdlibGasParameters,
    pub nursery: NurseryGasParameters,
    pub starcoin_natives: StarcoinNativesGasParameters,
    pub table: TableGasParameters,
}

impl NativeGasParameters {
    /// The parameters of every library, in library order.
    pub open spec fn values(&self) -> Seq<u64> {
        self.move_stdlib.values() + self.nursery.values() + self.starcoin_natives.values()
            + self.table.values()
    }

    /// The on-chain names of every library, in library order.
    pub open spec fn names() -> Seq<Seq<char>> {
        MoveStdlibGasParameters::names() + NurseryGasParameters::names()
            + StarcoinNativesGasParameters::names() + TableGasParameters::names()
    }

    pub open spec fn initial_values() -> Seq<u64> {
        MoveStdlibGasParameters::initial_values() + NurseryGasParameters::initial_values()
            + StarcoinNativesGasParameters::initial_values() + TableGasParameters::initial_values()
    }

    pub fn zeros() -> (r: Self)
        ensures
            forall|i: int| 0 <= i < r.values().len() ==> r.values()[i] == 0,
    {
        NativeGasParameters {
            move_stdlib: MoveStdlibGasParameters::zeros(),
            nursery: NurseryGasParameters::zeros(),
            starcoin_natives: StarcoinNativesGasParameters::zeros(),
            table: TableGasParameters::zeros(),
        }
    }

    pub fn initial() -> (r: Self)
        ensures
            r.values() == Self::initial_values(),
    {
        NativeGasParameters {
            move_stdlib: MoveStdlibGasParameters::initial(),
            nursery: NurseryGasParameters::initial(),
            starcoin_natives: StarcoinNativesGasParameters::initial(),
            table: TableGasParameters::initial(),
        }
    }
}

/// Gas parameters for everything needed to run the chain: instructions,
/// transactions and native functions.
#[derive(Clone, Debug, PartialEq, Eq, Structural)]
pub struct StarcoinGasParameters {
    pub misc: MiscGasParameters,
    pub instr: InstructionGasParameters,
    pub txn: TransactionGasParameters,
    pub natives: NativeGasParameters,
}

impl StarcoinGasParameters {
    /// Whether every parameter of every group is zero.
    pub open spec fn is_zero(&self) -> bool {
        &&& forall|i: int| 0 <= i < self.misc.values().len() ==> self.misc.values()[i] == 0
        &&& self.instr.all_zero()
        &&& self.txn.all_zero()
        &&& forall|i: int| 0 <= i < self.natives.values().len() ==> self.natives.values()[i] == 0
    }

    /// Whether every group holds its default values.
    pub open spec fn is_initial(&self) -> bool {
        &&& self.misc.values() == MiscGasParameters::initial_values()
        &&& self.instr.values() == InstructionGasParameters::initial_values()
        &&& self.txn.values() == TransactionGasParameters::initial_values()
        &&& self.natives.values() == NativeGasParameters::initial_values()
    }

    /// Every parameter zero: for trusted execution where nothing is charged.
    pub fn zeros() -> (r: Self)
        ensures
            r.is_zero(),
    {
        let natives = NativeGasParameters::zeros();
        StarcoinGasParameters {
            misc: MiscGasParameters::zeros(),
            instr: InstructionGasParameters::zeros(),
            txn: TransactionGasParameters::zeros(),
            natives,
        }
    }

    /// The defaults used before any on-chain schedule has been published.
    pub fn initial() -> (r: Self)
        ensures
            r.is_initial(),
    {
        StarcoinGasParameters {
            misc: MiscGasParameters::initial(),
            instr: InstructionGasParameters::initial(),
            txn: TransactionGasParameters::initial(),
            natives: NativeGasParameters::initial(),
        }
    }
}

} // verus!
