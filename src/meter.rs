//! The gas meter: a balance of internal gas, a switch that turns charging
//! off, and one charge per interpreter operation, each a pure function of the
//! parameters and of the operation's observable shape.
use crate::errors::{Location, PartialVMError, PartialVMResult, StatusCode, VMResult};
use crate::params::{SimpleInstruction, StarcoinGasParameters};
use crate::units::{
    add_sat, mul_sat, saturating_add, scale, sub_floor, AbstractMemorySize, Gas, InternalGas,
    NumArgs, NumBytes,
};
use vstd::prelude::*;

verus! {

/// The structural size charged for a resource that an exists-check finds.
/// This size, and the next, are a provisional approximation of the cost of
/// the check, not a measured one; changing either changes every charge.
pub const EXISTS_REFERENCE_SIZE: u64 = 8;

/// The structural size charged for a resource that an exists-check misses.
pub const EXISTS_MISSING_DATA_SIZE: u64 = 100;

/// An interpreter operation, by the shape that its cost depends on. It is a
/// description for contracts: each charge method deducts `op_cost` of its
/// operation, and the laws below speak of sequences of them.
pub enum Operation {
    Simple { instr: SimpleInstruction },
    Call { num_args: u64 },
    CallGeneric { num_ty_args: u64, num_args: u64 },
    LdConst { size: u64 },
    CopyLoc { size: u64 },
    MoveLoc { size: u64 },
    StoreLoc { size: u64 },
    Pack { is_generic: bool, field_sizes: Seq<u64> },
    Unpack { is_generic: bool, field_sizes: Seq<u64> },
    ReadRef { size: u64 },
    WriteRef { size: u64 },
    Eq { lhs: u64, rhs: u64 },
    Neq { lhs: u64, rhs: u64 },
    BorrowGlobal { is_mut: bool, is_generic: bool },
    Exists { is_generic: bool, exists: bool },
    MoveFrom { is_generic: bool, size: Option<u64> },
    MoveTo { is_generic: bool, size: u64 },
    VecPack { num_elems: u64 },
    VecLen,
    VecBorrow { is_mut: bool },
    VecPushBack { size: u64 },
    VecPopBack,
    VecUnpack { num_elems: u64 },
    VecSwap,
    LoadResource,
    Native { amount: u64 },
    Intrinsic { txn_size: u64 },
}

/// The sum of `s`.
pub open spec fn sum(s: Seq<u64>) -> int
    decreases s.len(),
{
    if s.len() == 0 {
        0
    } else {
        sum(s.drop_last()) + s.last()
    }
}

/// The size a struct operation is charged for: one unit per field plus the
/// sizes of the fields, clamped to `u64::MAX`.
pub open spec fn struct_size(field_sizes: Seq<u64>) -> u64 {
    if field_sizes.len() + sum(field_sizes) > u64::MAX {
        u64::MAX
    } else {
        (field_sizes.len() + sum(field_sizes)) as u64
    }
}

/// The amount that `op` deducts under parameters `p`.
pub open spec fn op_cost(p: StarcoinGasParameters, op: Operation) -> u64 {
    let i = p.instr;
    match op {
        Operation::Simple { instr } => i.simple_cost(instr),
        Operation::Call { num_args } => mul_sat(i.call_per_arg, add_sat(num_args, 1)),
        Operation::CallGeneric { num_ty_args, num_args } => mul_sat(
            i.call_generic_per_arg,
            add_sat(add_sat(num_ty_args, num_args), 1),
        ),
        Operation::LdConst { size } => mul_sat(i.ld_const_per_byte, size),
        Operation::CopyLoc { size } => mul_sat(i.copy_loc_per_abs_mem_unit, size),
        Operation::MoveLoc { size } => mul_sat(i.move_loc_per_abs_mem_unit, size),
        Operation::StoreLoc { size } => mul_sat(i.st_loc_per_abs_mem_unit, size),
        Operation::Pack { is_generic, field_sizes } => mul_sat(
            if is_generic {
                i.pack_generic_per_abs_mem_unit
            } else {
                i.pack_per_abs_mem_unit
            },
            struct_size(field_sizes),
        ),
        Operation::Unpack { is_generic, field_sizes } => mul_sat(
            if is_generic {
                i.unpack_generic_per_abs_mem_unit
            } else {
                i.unpack_per_abs_mem_unit
            },
            struct_size(field_sizes),
        ),
        Operation::ReadRef { size } => mul_sat(i.read_ref_per_abs_mem_unit, size),
        Operation::WriteRef { size } => mul_sat(i.write_ref_per_abs_mem_unit, size),
        Operation::Eq { lhs, rhs } => mul_sat(i.eq_per_abs_mem_unit, add_sat(lhs, rhs)),
        Operation::Neq { lhs, rhs } => mul_sat(i.eq_per_abs_mem_unit, add_sat(lhs, rhs)),
        Operation::BorrowGlobal { is_mut, is_generic } => {
            if is_mut {
                if is_generic {
                    i.mut_borrow_global_generic_base
                } else {
                    i.mut_borrow_global_base
                }
            } else {
                if is_generic {
                    i.imm_borrow_global_generic_base
                } else {
                    i.imm_borrow_global_base
                }
            }
        },
        Operation::Exists { is_generic, exists } => mul_sat(
            if is_generic {
                i.exists_generic_per_abs_mem_unit
            } else {
                i.exists_per_abs_mem_unit
            },
            if exists {
                EXISTS_REFERENCE_SIZE
            } else {
                EXISTS_MISSING_DATA_SIZE
            },
        ),
        Operation::MoveFrom { is_generic, size } => match size {
            Some(s) => mul_sat(
                if is_generic {
                    i.move_from_generic_per_abs_mem_unit
                } else {
                    i.move_from_per_abs_mem_unit
                },
                s,
            ),
            None => 0,
        },
        Operation::MoveTo { is_generic, size } => mul_sat(
            if is_generic {
                i.move_to_generic_per_abs_mem_unit
            } else {
                i.move_to_per_abs_mem_unit
            },
            size,
        ),
        Operation::VecPack { num_elems } => mul_sat(i.vec_pack_per_elem, num_elems),
        Operation::VecLen => i.vec_len_base,
        Operation::VecBorrow { is_mut } => if is_mut {
            i.vec_mut_borrow_base
        } else {
            i.vec_imm_borrow_base
        },
        Operation::VecPushBack { size } => mul_sat(i.vec_push_back_per_abs_mem_unit, size),
        Operation::VecPopBack => i.vec_pop_back_base,
        Operation::VecUnpack { num_elems } => mul_sat(i.vec_unpack_per_expected_elem, num_elems),
        Operation::VecSwap => i.vec_swap_base,
        Operation::LoadResource => 0,
        Operation::Native { amount } => amount,
        Operation::Intrinsic { txn_size } => p.txn.intrinsic_cost(txn_size),
    }
}

/// A deduction of `amount` from `balance`: the new balance and whether it
/// succeeded. With charging off nothing changes; otherwise an amount above
/// the balance empties it and fails.
pub open spec fn deduct_outcome(balance: u64, charging: bool, amount: u64) -> (u64, bool) {
    if !charging {
        (balance, true)
    } else if amount <= balance {
        ((balance - amount) as u64, true)
    } else {
        (0, false)
    }
}

/// The result a charge returns for a deduction that succeeded or not.
pub open spec fn charge_result(ok: bool) -> PartialVMResult<()> {
    if ok {
        Ok(())
    } else {
        Err(PartialVMError { major_status: StatusCode::OutOfGas })
    }
}

/// The state of a meter: its parameters, internal balance and switch.
pub struct MeterState {
    pub params: StarcoinGasParameters,
    pub balance: u64,
    pub charging: bool,
}

/// Whether `new` and `r` are what deducting `amount` from `old` gives.
pub open spec fn charged(old: MeterState, new: MeterState, r: PartialVMResult<()>, amount: u64) -> bool {
    let (balance, ok) = deduct_outcome(old.balance, old.charging, amount);
    &&& new.params == old.params
    &&& new.charging == old.charging
    &&& new.balance == balance
    &&& r == charge_result(ok)
}

/// The structural sizes as plain values.
pub open spec fn sizes_view(s: Seq<AbstractMemorySize>) -> Seq<u64> {
    s.map_values(|a: AbstractMemorySize| a.0)
}

/// One unit per field plus the fields' sizes, clamped to `u64::MAX`.
pub fn struct_size_of(field_sizes: &Vec<AbstractMemorySize>) -> (r: AbstractMemorySize)
    ensures
        r.0 == struct_size(sizes_view(field_sizes@)),
{
    let ghost s = sizes_view(field_sizes@);
    let n = field_sizes.len();
    let mut acc: u64 = n as u64;
    let mut i: usize = 0;
    while i < n
        invariant
            0 <= i <= n,
            n == field_sizes.len(),
            s == sizes_view(field_sizes@),
            acc == (if n + sum(s.take(i as int)) > u64::MAX {
                u64::MAX as int
            } else {
                n + sum(s.take(i as int))
            }),
        decreases n - i,
    {
        assert(s.take(i + 1).drop_last() =~= s.take(i as int));
        acc = saturating_add(acc, field_sizes[i].0);
        i = i + 1;
    }
    assert(s.take(n as int) =~= s);
    AbstractMemorySize(acc)
}

/// The gas meter. It keeps a balance in internal gas units and the
/// parameters that every charge looks its costs up in.
pub struct StarcoinGasMeter {
    gas_params: StarcoinGasParameters,
    balance: InternalGas,
    charge: bool,
}

impl View for StarcoinGasMeter {
    type V = MeterState;

    closed spec fn view(&self) -> MeterState {
        MeterState { params: self.gas_params, balance: self.balance.0, charging: self.charge }
    }
}

impl StarcoinGasMeter {
    /// A meter with charging on and `balance` external gas, converted to
    /// internal units by the transaction group's scale factor.
    pub fn new(gas_params: StarcoinGasParameters, balance: Gas) -> (r: Self)
        ensures
            r@ == (MeterState {
                params: gas_params,
                balance: gas_params.txn.internal_of(balance.0),
                charging: true,
            }),
    {
        let balance = gas_params.txn.to_internal(balance);
        StarcoinGasMeter { gas_params, balance, charge: true }
    }

    /// The balance in external gas units, rounded down.
    pub fn balance(&self) -> (r: Gas)
        ensures
            r.0 == self@.params.txn.external_of(self@.balance),
    {
        self.gas_params.txn.to_external_round_down(self.balance)
    }

    /// The balance in internal gas units.
    pub fn internal_balance(&self) -> (r: InternalGas)
        ensures
            r.0 == self@.balance,
    {
        self.balance
    }

    /// Deducts `amount`; see `deduct_outcome`.
    pub fn deduct_gas(&mut self, amount: InternalGas) -> (r: PartialVMResult<()>)
        ensures
            charged(old(self)@, final(self)@, r, amount.0),
    {
        if !self.charge {
            return Ok(());
        }
        match self.balance.0.checked_sub(amount.0) {
            Some(new_balance) => {
                self.balance = InternalGas(new_balance);
                Ok(())
            },
            None => {
                self.balance = InternalGas(0);
                Err(PartialVMError::new(StatusCode::OutOfGas))
            },
        }
    }

    /// Turns charging on or off.
    pub fn set_metering(&mut self, enabled: bool)
        ensures
            final(self)@ == (MeterState { charging: enabled, ..old(self)@ }),
    {
        self.charge = enabled;
    }

    /// Charges the entry fee of a transaction of `txn_size` bytes.
    pub fn charge_intrinsic_gas_for_transaction(&mut self, txn_size: NumBytes) -> (r: VMResult<()>)
        ensures
            ({
                let (balance, ok) = deduct_outcome(
                    old(self)@.balance,
                    old(self)@.charging,
                    old(self)@.params.txn.intrinsic_cost(txn_size.0),
                );
                &&& final(self)@ == (MeterState { balance, ..old(self)@ })
                &&& ok ==> r is Ok
                &&& !ok ==> r == Err::<(), _>(PartialVMError { major_status: StatusCode::OutOfGas }.finish_spec(Location::Undefined))
            }),
    {
        let cost = self.gas_params.txn.calculate_intrinsic_gas(txn_size);
        match self.deduct_gas(cost) {
            Ok(()) => Ok(()),
            Err(e) => Err(e.finish(Location::Undefined)),
        }
    }

    /// Charges an instruction whose cost is one constant.
    pub fn charge_simple_instr(&mut self, instr: SimpleInstruction) -> (r: PartialVMResult<()>)
        ensures
            charged(old(self)@, final(self)@, r, op_cost(old(self)@.params, Operation::Simple { instr })),
    {
        let cost = self.gas_params.instr.simple_instr_cost(instr);
        self.deduct_gas(cost)
    }

    /// Charges a call with `num_args` arguments: the per-argument rate times
    /// the arguments plus one for the call itself.
    pub fn charge_call(&mut self, num_args: NumArgs) -> (r: PartialVMResult<()>)
        ensures
            charged(old(self)@, final(self)@, r, op_cost(old(self)@.params, Operation::Call { num_args: num_args.0 })),
    {
        let cost = scale(self.gas_params.instr.call_per_arg, saturating_add(num_args.0, 1));
        self.deduct_gas(cost)
    }

    /// Charges a generic call: type arguments and value arguments plus one,
    /// times the generic per-argument rate.
    pub fn charge_call_generic(&mut self, num_ty_args: NumArgs, num_args: NumArgs) -> (r: PartialVMResult<()>)
        ensures
            charged(old(self)@, final(self)@, r, op_cost(old(self)@.params, Operation::CallGeneric { num_ty_args: num_ty_args.0, num_args: num_args.0 })),
    {
        let count = saturating_add(saturating_add(num_ty_args.0, num_args.0), 1);
        let cost = scale(self.gas_params.instr.call_generic_per_arg, count);
        self.deduct_gas(cost)
    }

    /// Charges loading a constant of `size` bytes.
    pub fn charge_ld_const(&mut self, size: NumBytes) -> (r: PartialVMResult<()>)
        ensures
            charged(old(self)@, final(self)@, r, op_cost(old(self)@.params, Operation::LdConst { size: size.0 })),
    {
        let cost = scale(self.gas_params.instr.ld_const_per_byte, size.0);
        self.deduct_gas(cost)
    }

    /// Charges copying a local of structural size `val_size`.
    pub fn charge_copy_loc(&mut self, val_size: AbstractMemorySize) -> (r: PartialVMResult<()>)
        ensures
            charged(old(self)@, final(self)@, r, op_cost(old(self)@.params, Operation::CopyLoc { size: val_size.0 })),
    {
        let cost = scale(self.gas_params.instr.copy_loc_per_abs_mem_unit, val_size.0);
        self.deduct_gas(cost)
    }

    /// Charges moving a local of structural size `val_size`.
    pub fn charge_move_loc(&mut self, val_size: AbstractMemorySize) -> (r: PartialVMResult<()>)
        ensures
            charged(old(self)@, final(self)@, r, op_cost(old(self)@.params, Operation::MoveLoc { size: val_size.0 })),
    {
        let cost = scale(self.gas_params.instr.move_loc_per_abs_mem_unit, val_size.0);
        self.deduct_gas(cost)
    }

    /// Charges storing a value of structural size `val_size` in a local.
    pub fn charge_store_loc(&mut self, val_size: AbstractMemorySize) -> (r: PartialVMResult<()>)
        ensures
            charged(old(self)@, final(self)@, r, op_cost(old(self)@.params, Operation::StoreLoc { size: val_size.0 })),
    {
        let cost = scale(self.gas_params.instr.st_loc_per_abs_mem_unit, val_size.0);
        self.deduct_gas(cost)
    }

    /// Charges packing a struct whose fields have the given structural sizes.
    pub fn charge_pack(&mut self, is_generic: bool, field_sizes: &Vec<AbstractMemorySize>) -> (r: PartialVMResult<()>)
        ensures
            charged(old(self)@, final(self)@, r, op_cost(old(self)@.params, Operation::Pack { is_generic, field_sizes: sizes_view(field_sizes@) })),
    {
        let size = struct_size_of(field_sizes);
        let rate = if is_generic {
            self.gas_params.instr.pack_generic_per_abs_mem_unit
        } else {
            self.gas_params.instr.pack_per_abs_mem_unit
        };
        let cost = scale(rate, size.0);
        self.deduct_gas(cost)
    }

    /// Charges unpacking a struct whose fields have the given structural sizes.
    pub fn charge_unpack(&mut self, is_generic: bool, field_sizes: &Vec<AbstractMemorySize>) -> (r: PartialVMResult<()>)
        ensures
            charged(old(self)@, final(self)@, r, op_cost(old(self)@.params, Operation::Unpack { is_generic, field_sizes: sizes_view(field_sizes@) })),
    {
        let size = struct_size_of(field_sizes);
        let rate = if is_generic {
            self.gas_params.instr.unpack_generic_per_abs_mem_unit
        } else {
            self.gas_params.instr.unpack_per_abs_mem_unit
        };
        let cost = scale(rate, size.0);
        self.deduct_gas(cost)
    }

    /// Charges reading a value of structural size `val_size` through a reference.
    pub fn charge_read_ref(&mut self, val_size: AbstractMemorySize) -> (r: PartialVMResult<()>)
        ensures
            charged(old(self)@, final(self)@, r, op_cost(old(self)@.params, Operation::ReadRef { size: val_size.0 })),
    {
        let cost = scale(self.gas_params.instr.read_ref_per_abs_mem_unit, val_size.0);
        self.deduct_gas(cost)
    }

    /// Charges writing a value of structural size `val_size` through a reference.
    pub fn charge_write_ref(&mut self, val_size: AbstractMemorySize) -> (r: PartialVMResult<()>)
        ensures
            charged(old(self)@, final(self)@, r, op_cost(old(self)@.params, Operation::WriteRef { size: val_size.0 })),
    {
        let cost = scale(self.gas_params.instr.write_ref_per_abs_mem_unit, val_size.0);
        self.deduct_gas(cost)
    }

    /// Charges comparing two values by the sum of their structural sizes.
    pub fn charge_eq(&mut self, lhs: AbstractMemorySize, rhs: AbstractMemorySize) -> (r: PartialVMResult<()>)
        ensures
            charged(old(self)@, final(self)@, r, op_cost(old(self)@.params, Operation::Eq { lhs: lhs.0, rhs: rhs.0 })),
    {
        let cost = scale(self.gas_params.instr.eq_per_abs_mem_unit, saturating_add(lhs.0, rhs.0));
        self.deduct_gas(cost)
    }

    /// Charges comparing two values by the sum of their structural sizes.
    pub fn charge_neq(&mut self, lhs: AbstractMemorySize, rhs: AbstractMemorySize) -> (r: PartialVMResult<()>)
        ensures
            charged(old(self)@, final(self)@, r, op_cost(old(self)@.params, Operation::Neq { lhs: lhs.0, rhs: rhs.0 })),
    {
        let cost = scale(self.gas_params.instr.eq_per_abs_mem_unit, saturating_add(lhs.0, rhs.0));
        self.deduct_gas(cost)
    }

    /// Charges borrowing a global resource; whether it succeeded does not matter.
    pub fn charge_borrow_global(&mut self, is_mut: bool, is_generic: bool, _is_success: bool) -> (r: PartialVMResult<()>)
        ensures
            charged(old(self)@, final(self)@, r, op_cost(old(self)@.params, Operation::BorrowGlobal { is_mut, is_generic })),
    {
        let params = &self.gas_params.instr;
        let cost = match (is_mut, is_generic) {
            (false, false) => params.imm_borrow_global_base,
            (false, true) => params.imm_borrow_global_generic_base,
            (true, false) => params.mut_borrow_global_base,
            (true, true) => params.mut_borrow_global_generic_base,
        };
        self.deduct_gas(InternalGas(cost))
    }

    /// Charges checking whether a global resource exists.
    pub fn charge_exists(&mut self, is_generic: bool, exists: bool) -> (r: PartialVMResult<()>)
        ensures
            charged(old(self)@, final(self)@, r, op_cost(old(self)@.params, Operation::Exists { is_generic, exists })),
    {
        let rate = if is_generic {
            self.gas_params.instr.exists_generic_per_abs_mem_unit
        } else {
            self.gas_params.instr.exists_per_abs_mem_unit
        };
        let size = if exists {
            EXISTS_REFERENCE_SIZE
        } else {
            EXISTS_MISSING_DATA_SIZE
        };
        let cost = scale(rate, size);
        self.deduct_gas(cost)
    }

    /// Charges moving a resource out of global storage; nothing when it was
    /// absent.
    pub fn charge_move_from(&mut self, is_generic: bool, val_size: Option<AbstractMemorySize>) -> (r: PartialVMResult<()>)
        ensures
            charged(old(self)@, final(self)@, r, op_cost(old(self)@.params, Operation::MoveFrom { is_generic, size: match val_size { Some(v) => Some(v.0), None => None } })),
    {
        match val_size {
            Some(v) => {
                let rate = if is_generic {
                    self.gas_params.instr.move_from_generic_per_abs_mem_unit
                } else {
                    self.gas_params.instr.move_from_per_abs_mem_unit
                };
                let cost = scale(rate, v.0);
                self.deduct_gas(cost)
            },
            None => Ok(()),
        }
    }

    /// Charges moving a value into global storage, whether or not the target
    /// already existed.
    pub fn charge_move_to(&mut self, is_generic: bool, val_size: AbstractMemorySize, _is_success: bool) -> (r: PartialVMResult<()>)
        ensures
            charged(old(self)@, final(self)@, r, op_cost(old(self)@.params, Operation::MoveTo { is_generic, size: val_size.0 })),
    {
        let rate = if is_generic {
            self.gas_params.instr.move_to_generic_per_abs_mem_unit
        } else {
            self.gas_params.instr.move_to_per_abs_mem_unit
        };
        let cost = scale(rate, val_size.0);
        self.deduct_gas(cost)
    }

    /// Charges packing a vector of `num_elems` elements.
    pub fn charge_vec_pack(&mut self, num_elems: NumArgs) -> (r: PartialVMResult<()>)
        ensures
            charged(old(self)@, final(self)@, r, op_cost(old(self)@.params, Operation::VecPack { num_elems: num_elems.0 })),
    {
        let cost = scale(self.gas_params.instr.vec_pack_per_elem, num_elems.0);
        self.deduct_gas(cost)
    }

    /// Charges reading a vector's length.
    pub fn charge_vec_len(&mut self) -> (r: PartialVMResult<()>)
        ensures
            charged(old(self)@, final(self)@, r, op_cost(old(self)@.params, Operation::VecLen)),
    {
        let cost = self.gas_params.instr.vec_len_base;
        self.deduct_gas(InternalGas(cost))
    }

    /// Charges borrowing a vector element.
    pub fn charge_vec_borrow(&mut self, is_mut: bool, _is_success: bool) -> (r: PartialVMResult<()>)
        ensures
            charged(old(self)@, final(self)@, r, op_cost(old(self)@.params, Operation::VecBorrow { is_mut })),
    {
        let cost = if is_mut {
            self.gas_params.instr.vec_mut_borrow_base
        } else {
            self.gas_params.instr.vec_imm_borrow_base
        };
        self.deduct_gas(InternalGas(cost))
    }

    /// Charges pushing a value of structural size `val_size` onto a vector.
    pub fn charge_vec_push_back(&mut self, val_size: AbstractMemorySize) -> (r: PartialVMResult<()>)
        ensures
            charged(old(self)@, final(self)@, r, op_cost(old(self)@.params, Operation::VecPushBack { size: val_size.0 })),
    {
        let cost = scale(self.gas_params.instr.vec_push_back_per_abs_mem_unit, val_size.0);
        self.deduct_gas(cost)
    }

    /// Charges popping from a vector, whether or not a value came out.
    pub fn charge_vec_pop_back(&mut self) -> (r: PartialVMResult<()>)
        ensures
            charged(old(self)@, final(self)@, r, op_cost(old(self)@.params, Operation::VecPopBack)),
    {
        let cost = self.gas_params.instr.vec_pop_back_base;
        self.deduct_gas(InternalGas(cost))
    }

    /// Charges unpacking a vector of the expected number of elements.
    pub fn charge_vec_unpack(&mut self, expect_num_elements: NumArgs) -> (r: PartialVMResult<()>)
        ensures
            charged(old(self)@, final(self)@, r, op_cost(old(self)@.params, Operation::VecUnpack { num_elems: expect_num_elements.0 })),
    {
        let cost = scale(self.gas_params.instr.vec_unpack_per_expected_elem, expect_num_elements.0);
        self.deduct_gas(cost)
    }

    /// Charges swapping two vector elements.
    pub fn charge_vec_swap(&mut self) -> (r: PartialVMResult<()>)
        ensures
            charged(old(self)@, final(self)@, r, op_cost(old(self)@.params, Operation::VecSwap)),
    {
        let cost = self.gas_params.instr.vec_swap_base;
        self.deduct_gas(InternalGas(cost))
    }

    /// Loading a resource costs nothing here: the storage layer meters it.
    pub fn charge_load_resource(&mut self, _loaded: Option<NumBytes>) -> (r: PartialVMResult<()>)
        ensures
            charged(old(self)@, final(self)@, r, op_cost(old(self)@.params, Operation::LoadResource)),
    {
        Ok(())
    }

    /// Deducts the amount that a native function computed for itself.
    pub fn charge_native_function(&mut self, amount: InternalGas) -> (r: PartialVMResult<()>)
        ensures
            charged(old(self)@, final(self)@, r, op_cost(old(self)@.params, Operation::Native { amount: amount.0 })),
    {
        self.deduct_gas(amount)
    }

    /// The cost that will be charged for the transaction's write set; no
    /// deduction.
    pub fn cal_write_set_gas(&self) -> (r: InternalGas)
        ensures
            r.0 == self@.params.txn.write_set_cost(),
    {
        self.gas_params.txn.cal_write_set_gas()
    }
}

/// The balance after deducting each of `amounts` in turn from `balance`.
pub open spec fn balance_after(balance: u64, charging: bool, amounts: Seq<u64>) -> u64
    decreases amounts.len(),
{
    if amounts.len() == 0 {
        balance
    } else {
        deduct_outcome(balance_after(balance, charging, amounts.drop_last()), charging, amounts.last()).0
    }
}

/// Whether the `j`-th of `amounts`, deducted after those before it, succeeds.
pub open spec fn step_succeeds(balance: u64, charging: bool, amounts: Seq<u64>, j: int) -> bool {
    deduct_outcome(balance_after(balance, charging, amounts.take(j)), charging, amounts[j]).1
}

/// The amounts that `ops` deduct under parameters `p`, in order.
pub open spec fn op_costs(p: StarcoinGasParameters, ops: Seq<Operation>) -> Seq<u64> {
    ops.map_values(|op: Operation| op_cost(p, op))
}

/// With charging on, each deduction leaves `max(0, previous - amount)`, so
/// the balance never grows along a sequence of deductions.
pub proof fn lemma_deductions_clamp_and_never_grow(balance: u64, amounts: Seq<u64>)
    ensures
        forall|j: int|
            0 <= j < amounts.len() ==> #[trigger] balance_after(balance, true, amounts.take(j + 1))
                == sub_floor(balance_after(balance, true, amounts.take(j)), amounts[j]),
        forall|i: int, j: int|
            0 <= i <= j <= amounts.len() ==> #[trigger] balance_after(balance, true, amounts.take(j))
                <= #[trigger] balance_after(balance, true, amounts.take(i)),
{
    assert forall|j: int| 0 <= j < amounts.len() implies #[trigger] balance_after(
        balance,
        true,
        amounts.take(j + 1),
    ) == sub_floor(balance_after(balance, true, amounts.take(j)), amounts[j]) by {
        assert(amounts.take(j + 1).drop_last() =~= amounts.take(j));
    }
    assert forall|i: int, j: int| 0 <= i <= j <= amounts.len() implies #[trigger] balance_after(
        balance,
        true,
        amounts.take(j),
    ) <= #[trigger] balance_after(balance, true, amounts.take(i)) by {
        lemma_prefix_balance_never_grows(balance, amounts, i, j);
    }
}

proof fn lemma_prefix_balance_never_grows(balance: u64, amounts: Seq<u64>, i: int, j: int)
    requires
        0 <= i <= j <= amounts.len(),
    ensures
        balance_after(balance, true, amounts.take(j)) <= balance_after(balance, true, amounts.take(i)),
    decreases j - i,
{
    if i < j {
        lemma_prefix_balance_never_grows(balance, amounts, i, j - 1);
        assert(amounts.take(j).drop_last() =~= amounts.take(j - 1));
    }
}

/// Once the balance is zero, every later deduction of a positive amount
/// fails and leaves it zero; a deduction of zero always succeeds.
pub proof fn lemma_exhaustion_is_sticky(balance: u64, amounts: Seq<u64>, i: int)
    requires
        0 <= i <= amounts.len(),
        balance_after(balance, true, amounts.take(i)) == 0,
    ensures
        forall|j: int| i <= j <= amounts.len() ==> #[trigger] balance_after(balance, true, amounts.take(j)) == 0,
        forall|j: int|
            i <= j < amounts.len() ==> (#[trigger] step_succeeds(balance, true, amounts, j) <==> amounts[j] == 0),
        forall|b: u64, c: bool| #[trigger] deduct_outcome(b, c, 0) == (b, true),
{
    assert forall|j: int| i <= j <= amounts.len() implies #[trigger] balance_after(
        balance,
        true,
        amounts.take(j),
    ) == 0 by {
        lemma_prefix_balance_never_grows(balance, amounts, i, j);
    }
    assert forall|j: int| i <= j < amounts.len() implies (#[trigger] step_succeeds(
        balance,
        true,
        amounts,
        j,
    ) <==> amounts[j] == 0) by {
        lemma_prefix_balance_never_grows(balance, amounts, i, j);
    }
}

/// With charging off, no sequence of deductions changes the balance or fails.
pub proof fn lemma_disabled_charging_is_inert(balance: u64, amounts: Seq<u64>)
    ensures
        balance_after(balance, false, amounts) == balance,
        forall|j: int| 0 <= j <= amounts.len() ==> #[trigger] balance_after(balance, false, amounts.take(j)) == balance,
        forall|j: int| 0 <= j < amounts.len() ==> #[trigger] step_succeeds(balance, false, amounts, j),
{
    lemma_disabled_prefix(balance, amounts, amounts.len() as int);
    assert(amounts.take(amounts.len() as int) =~= amounts);
    assert forall|j: int| 0 <= j <= amounts.len() implies #[trigger] balance_after(
        balance,
        false,
        amounts.take(j),
    ) == balance by {
        lemma_disabled_prefix(balance, amounts, j);
    }
    assert forall|j: int| 0 <= j < amounts.len() implies #[trigger] step_succeeds(
        balance,
        false,
        amounts,
        j,
    ) by {
        lemma_disabled_prefix(balance, amounts, j);
    }
}

proof fn lemma_disabled_prefix(balance: u64, amounts: Seq<u64>, j: int)
    requires
        0 <= j <= amounts.len(),
    ensures
        balance_after(balance, false, amounts.take(j)) == balance,
    decreases j,
{
    if j > 0 {
        lemma_disabled_prefix(balance, amounts, j - 1);
        assert(amounts.take(j).drop_last() =~= amounts.take(j - 1));
    }
}

/// Under the all-zero parameters every operation but a native call costs
/// nothing, so a sequence of them never lowers the balance and never fails,
/// whatever the operand sizes. (A native call deducts what the native
/// function computed, which these parameters do not decide.)
pub proof fn lemma_zero_schedule_is_free(
    p: StarcoinGasParameters,
    balance: u64,
    charging: bool,
    ops: Seq<Operation>,
)
    requires
        p.is_zero(),
        forall|k: int| 0 <= k < ops.len() ==> !(#[trigger] ops[k] is Native),
    ensures
        forall|k: int| 0 <= k < ops.len() ==> #[trigger] op_costs(p, ops)[k] == 0,
        balance_after(balance, charging, op_costs(p, ops)) == balance,
        forall|j: int| 0 <= j < ops.len() ==> #[trigger] step_succeeds(balance, charging, op_costs(p, ops), j),
{
    p.instr.lemma_all_zero_fields();
    p.txn.lemma_all_zero_fields();
    let costs = op_costs(p, ops);
    assert forall|k: int| 0 <= k < ops.len() implies #[trigger] costs[k] == 0 by {
        lemma_zero_cost(p, ops[k]);
    }
    lemma_zero_costs_prefix(balance, charging, costs, costs.len() as int);
    assert(costs.take(costs.len() as int) =~= costs);
    assert forall|j: int| 0 <= j < ops.len() implies #[trigger] step_succeeds(balance, charging, costs, j) by {
        lemma_zero_costs_prefix(balance, charging, costs, j);
    }
}

/// Under the all-zero parameters an operation other than a native call costs
/// nothing.
pub proof fn lemma_zero_cost(p: StarcoinGasParameters, op: Operation)
    requires
        p.is_zero(),
        !(op is Native),
    ensures
        op_cost(p, op) == 0,
{
    p.instr.lemma_all_zero_fields();
    p.txn.lemma_all_zero_fields();
    match op {
        Operation::Simple { instr } => {
            assert(p.instr.simple_cost(instr) == 0);
        },
        _ => {},
    }
}

proof fn lemma_zero_costs_prefix(balance: u64, charging: bool, costs: Seq<u64>, j: int)
    requires
        0 <= j <= costs.len(),
        forall|k: int| 0 <= k < costs.len() ==> costs[k] == 0,
    ensures
        balance_after(balance, charging, costs.take(j)) == balance,
    decreases j,
{
    if j > 0 {
        lemma_zero_costs_prefix(balance, charging, costs, j - 1);
        assert(costs.take(j).drop_last() =~= costs.take(j - 1));
    }
}

} // verus!
