//! Installation: the entry points that the contract declares to the host,
//! the names under which the host keeps its state, and the ledger that it
//! starts from.

use crate::ledger::Ledger;
use crate::state::LedgerState;
use casper_types::{
    CLType, EntryPoint, EntryPointAccess, EntryPointType, EntryPoints, Parameter,
};
use vstd::prelude::*;

verus! {

/// The name of the entry point that stakes.
pub const ENTRY_POINT_STAKE: &'static str = "stake";

/// The name of the entry point that unstakes.
pub const ENTRY_POINT_UNSTAKE: &'static str = "unstake";

/// The name of the argument that carries the amount.
pub const ARG_AMOUNT: &'static str = "amount";

/// The name under which the host keeps the reference to the total.
pub const KEY_TOTAL_STAKED: &'static str = "total_staked";

/// The name under which the host keeps the reference to the balances.
pub const KEY_BALANCES: &'static str = "balances";

/// The types of the values that pass between the host and an entry point.
#[derive(Clone, Copy, Debug, PartialEq, Eq, Structural)]
pub enum ValueType {
    /// No value.
    Unit,
    /// An unsigned 512-bit integer.
    U512,
}

/// Who may call an entry point.
#[derive(Clone, Copy, Debug, PartialEq, Eq, Structural)]
pub enum Access {
    /// Anyone.
    Public,
}

/// In whose context an entry point runs.
#[derive(Clone, Copy, Debug, PartialEq, Eq, Structural)]
pub enum Context {
    /// In the context of the calling session.
    Session,
    /// In the context of the contract.
    Contract,
}

/// One named argument of an entry point.
#[derive(Debug)]
pub struct Argument {
    /// The argument's name.
    pub name: String,
    /// The type of its value.
    pub value_type: ValueType,
}

/// What an entry point takes and returns, who may call it and where it
/// runs.
#[derive(Debug)]
pub struct Signature {
    /// The arguments, in order.
    pub arguments: Vec<Argument>,
    /// The type of the result.
    pub returns: ValueType,
    /// Who may call it.
    pub access: Access,
    /// Where it runs.
    pub context: Context,
}

/// A signature as a mathematical value.
pub struct SignatureModel {
    /// Name and type of each argument, in order.
    pub arguments: Seq<(Seq<char>, ValueType)>,
    /// The type of the result.
    pub returns: ValueType,
    /// Who may call it.
    pub access: Access,
    /// Where it runs.
    pub context: Context,
}

impl View for Signature {
    type V = SignatureModel;

    open spec fn view(&self) -> SignatureModel {
        SignatureModel {
            arguments: Seq::new(
                self.arguments@.len(),
                |i: int| (self.arguments@[i].name@, self.arguments@[i].value_type),
            ),
            returns: self.returns,
            access: self.access,
            context: self.context,
        }
    }
}

/// The signature that both operations share: one 512-bit amount in,
/// nothing out, open to anyone, run in the contract's context.
pub open spec fn amount_signature() -> SignatureModel {
    SignatureModel {
        arguments: seq![(ARG_AMOUNT@, ValueType::U512)],
        returns: ValueType::Unit,
        access: Access::Public,
        context: Context::Contract,
    }
}

/// The table that the contract declares: `stake` and `unstake`, each with
/// the signature that takes the amount.
pub open spec fn operations_declared() -> Map<Seq<char>, SignatureModel> {
    Map::empty().insert(ENTRY_POINT_STAKE@, amount_signature()).insert(
        ENTRY_POINT_UNSTAKE@,
        amount_signature(),
    )
}

/// `casper_types::EntryPoints`: the table of named entry points that a
/// contract hands to the host.
#[verifier::external_type_specification]
#[verifier::external_body]
pub struct ExEntryPoints(EntryPoints);

/// What a table of entry points holds: the signature declared under each
/// name.
pub uninterp spec fn declared(table: EntryPoints) -> Map<Seq<char>, SignatureModel>;

/// `EntryPoints::new` of `casper_types`: a table that holds no entry point.
#[verifier::external_body]
fn empty_table() -> (empty: EntryPoints)
    ensures
        (declared(empty) == Map::<Seq<char>, SignatureModel>::empty()),
{
    EntryPoints::new()
}

/// `EntryPoints::add_entry_point` of `casper_types`, on the entry point that
/// `EntryPoint::new` and `Parameter::new` make of the name and the signature
/// given. The table then holds that signature under that name, in place of
/// any that the name had, and every other entry as before.
#[verifier::external_body]
fn declare(table: &mut EntryPoints, name: &str, signature: &Signature)
    ensures
        declared(*final(table)) == declared(*old(table)).insert(name@, signature@),
{
    let cl_type = |t: ValueType| match t {
        ValueType::Unit => CLType::Unit,
        ValueType::U512 => CLType::U512,
    };
    let mut args = Vec::new();
    for a in signature.arguments.iter() {
        args.push(Parameter::new(a.name.clone(), cl_type(a.value_type)));
    }
    let ret = cl_type(signature.returns);
    let access = match signature.access { Access::Public => EntryPointAccess::Public };
    let context = match signature.context {
        Context::Session => EntryPointType::Session,
        Context::Contract => EntryPointType::Contract,
    };
    table.add_entry_point(EntryPoint::new(name, args, ret, access, context));
}

/// What installing the contract sets up.
#[derive(Debug)]
pub struct Installation {
    /// The entry points to declare to the host.
    pub entry_points: EntryPoints,
    /// The ledger before any operation.
    pub ledger: Ledger,
}

/// The signature of an operation that takes the amount and returns
/// nothing.
fn operation_signature() -> (signature: Signature)
    ensures
        signature@ == amount_signature(),
{
    let mut arguments: Vec<Argument> = Vec::new();
    arguments.push(Argument { name: String::from_str(ARG_AMOUNT), value_type: ValueType::U512 });
    let signature = Signature {
        arguments,
        returns: ValueType::Unit,
        access: Access::Public,
        context: Context::Contract,
    };
    assert(signature@.arguments =~= amount_signature().arguments);
    signature
}

/// Sets the contract up: declares `stake` and `unstake`, each taking the
/// amount and returning nothing, and starts from the empty ledger.
pub fn call() -> (installation: Installation)
    ensures
        declared(installation.entry_points) == operations_declared(),
        installation.ledger@ == LedgerState::empty(),
{
    let mut entry_points = empty_table();
    declare(&mut entry_points, ENTRY_POINT_STAKE, &operation_signature());
    declare(&mut entry_points, ENTRY_POINT_UNSTAKE, &operation_signature());
    Installation { entry_points, ledger: Ledger::new() }
}

} // verus!
