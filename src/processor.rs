use vstd::prelude::*;

use crate::account::{counter_of, with_counter, Account, GreetingAccount, Identity};

verus! {

/// Why an invocation fails.
#[derive(Debug, Clone, Copy, PartialEq, Eq, Structural)]
pub enum ExecutionError {
    /// No account was handed to the program.
    MissingAccount,
    /// The account is owned by another program.
    IncorrectOwner,
    /// The account's data region is too short to hold the record.
    Corrupt,
}

/// The counter after one greeting: one more, wrapping around at `u32::MAX`.
pub open spec fn next_counter(c: u32) -> u32 {
    ((c + 1) % 0x1_0000_0000) as u32
}

/// What greeting an account with this owner and data returns, when the
/// program runs as `program_id`: the new counter, or why it fails.
pub open spec fn greet_outcome(program_id: Seq<u8>, owner: Seq<u8>, data: Seq<u8>) -> Result<
    u32,
    ExecutionError,
> {
    if owner != program_id {
        Err(ExecutionError::IncorrectOwner)
    } else if data.len() < 4 {
        Err(ExecutionError::Corrupt)
    } else {
        Ok(next_counter(counter_of(data)))
    }
}

/// The account's data region after the greeting: the new counter written over
/// the record on success, the same bytes on failure.
pub open spec fn greet_data(program_id: Seq<u8>, owner: Seq<u8>, data: Seq<u8>) -> Seq<u8> {
    match greet_outcome(program_id, owner, data) {
        Ok(c) => with_counter(data, c),
        Err(_) => data,
    }
}

/// What an invocation with these accounts returns: only the first one counts.
pub open spec fn outcome(program_id: Seq<u8>, accounts: Seq<Account>) -> Result<
    u32,
    ExecutionError,
> {
    if accounts.len() == 0 {
        Err(ExecutionError::MissingAccount)
    } else {
        greet_outcome(program_id, accounts[0].owner.bytes@, accounts[0].data@)
    }
}

/// Greets the first account: checks that this program owns it, reads its
/// record, adds one to the counter (wrapping around) and writes the record
/// back in place. Returns the new counter. The instruction payload is not
/// consulted: every invocation greets. On failure no account is touched.
pub fn process_instruction(
    program_id: &Identity,
    accounts: &mut Vec<Account>,
    _instruction_data: &[u8],
) -> (r: Result<u32, ExecutionError>)
    ensures
        r == outcome(program_id.bytes@, old(accounts)@),
        final(accounts)@.len() == old(accounts)@.len(),
        r is Err ==> final(accounts)@ == old(accounts)@,
        r is Ok ==> {
            &&& final(accounts)@[0].owner == old(accounts)@[0].owner
            &&& final(accounts)@[0].data@ == greet_data(
                program_id.bytes@,
                old(accounts)@[0].owner.bytes@,
                old(accounts)@[0].data@,
            )
            &&& forall|i: int|
                1 <= i < old(accounts)@.len() ==> final(accounts)@[i] == old(accounts)@[i]
        },
{
    if accounts.len() == 0 {
        return Err(ExecutionError::MissingAccount);
    }
    if !accounts[0].owner.same_as(program_id) {
        return Err(ExecutionError::IncorrectOwner);
    }
    let mut greeting = match GreetingAccount::load(accounts[0].data.as_slice()) {
        Some(g) => g,
        None => return Err(ExecutionError::Corrupt),
    };
    greeting.counter = greeting.counter.wrapping_add(1);
    let mut account = accounts.remove(0);
    greeting.store(&mut account.data);
    accounts.insert(0, account);
    Ok(greeting.counter)
}

/// An account that another program owns is refused as `IncorrectOwner`, and
/// its data stays as it was.
pub proof fn lemma_foreign_owner_untouched(program_id: Seq<u8>, owner: Seq<u8>, data: Seq<u8>)
    requires
        owner != program_id,
    ensures
        greet_outcome(program_id, owner, data) == Err::<u32, ExecutionError>(
            ExecutionError::IncorrectOwner,
        ),
        greet_data(program_id, owner, data) == data,
{
}

/// A greeting never changes the length of the data region.
pub proof fn lemma_length_kept(program_id: Seq<u8>, owner: Seq<u8>, data: Seq<u8>)
    ensures
        greet_data(program_id, owner, data).len() == data.len(),
{
}

/// Greetings add up: two greetings of an account whose record reads `c` return
/// `c + 1` and then `c + 2` (wrapping), and leave `c + 2` stored; from zero,
/// one and then two.
pub proof fn lemma_greetings_accumulate(program_id: Seq<u8>, owner: Seq<u8>, data: Seq<u8>)
    requires
        owner == program_id,
        data.len() >= 4,
    ensures
        ({
            let c = counter_of(data);
            let once = greet_data(program_id, owner, data);
            let twice = greet_data(program_id, owner, once);
            &&& greet_outcome(program_id, owner, data) == Ok::<u32, ExecutionError>(
                next_counter(c),
            )
            &&& greet_outcome(program_id, owner, once) == Ok::<u32, ExecutionError>(
                next_counter(next_counter(c)),
            )
            &&& counter_of(twice) == next_counter(next_counter(c))
            &&& c == 0 ==> counter_of(once) == 1 && counter_of(twice) == 2
        }),
{
    let c = counter_of(data);
    let once = greet_data(program_id, owner, data);
    lemma_counter_written(data, next_counter(c));
    lemma_counter_written(once, next_counter(next_counter(c)));
}

/// The counter read back from a region just written holds the value written.
proof fn lemma_counter_written(data: Seq<u8>, v: u32)
    requires
        data.len() >= 4,
    ensures
        with_counter(data, v).len() == data.len(),
        counter_of(with_counter(data, v)) == v,
{
    let d = with_counter(data, v);
    assert(d.subrange(0, 4) =~= crate::instructions::u32_le_bytes(v));
}

} // verus!
