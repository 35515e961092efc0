use crate::errors::SettlerError;
use crate::state::{spec_intent_extended_size, Intent};
use crate::types::{IntentEvent, TokenFee, KEY_LEN};
use vstd::prelude::*;

verus! {

/// When an extension succeeds: the caller is the intent's creator, the
/// intent is not yet final, its deadline has not passed, and the grown
/// footprint is representable.
pub open spec fn extend_intent_ok(
    intent: Intent,
    current_size: nat,
    caller: Seq<u8>,
    now: u64,
    more_data: Option<Vec<u8>>,
    more_max_fees: Option<Vec<TokenFee>>,
    more_events: Option<Vec<IntentEvent>>,
) -> bool {
    &&& intent.intent_creator@ == caller
    &&& !intent.is_final
    &&& intent.deadline > now
    &&& spec_intent_extended_size(current_size, more_data, more_max_fees, more_events)
        <= usize::MAX
}

/// The error an extension reports, checks made in the order listed in
/// `extend_intent_ok`.
pub open spec fn extend_intent_err(
    intent: Intent,
    current_size: nat,
    caller: Seq<u8>,
    now: u64,
    more_data: Option<Vec<u8>>,
    more_max_fees: Option<Vec<TokenFee>>,
    more_events: Option<Vec<IntentEvent>>,
) -> SettlerError {
    if intent.intent_creator@ != caller {
        SettlerError::IncorrectIntentCreator
    } else if intent.is_final {
        SettlerError::IntentIsFinal
    } else if !(intent.deadline > now) {
        SettlerError::IntentIsExpired
    } else {
        SettlerError::MathError
    }
}

/// Appends the supplied sections to an unfinalized, unexpired intent, and
/// optionally latches it final — a one-way transition: once `is_final` is
/// set, every further extension fails, however much time remains. Returns
/// the record's grown storage footprint, computed from the previous
/// footprint `current_size`; the ledger zero-fills the newly acquired
/// region before it reinterprets it as typed data.
pub fn extend_intent(
    intent: &mut Intent,
    current_size: usize,
    caller: &Vec<u8>,
    now: u64,
    more_data: Option<Vec<u8>>,
    more_max_fees: Option<Vec<TokenFee>>,
    more_events: Option<Vec<IntentEvent>>,
    finalize: bool,
) -> (r: Result<usize, SettlerError>)
    requires
        old(intent).wf(),
        caller.len() == KEY_LEN,
        (more_max_fees matches Some(f) ==> forall|i: int|
            0 <= i < f.len() ==> (#[trigger] f[i]).wf()),
        (more_events matches Some(e) ==> forall|i: int|
            0 <= i < e.len() ==> (#[trigger] e[i]).wf()),
    ensures
        r is Ok <==> extend_intent_ok(
            *old(intent),
            current_size as nat,
            caller@,
            now,
            more_data,
            more_max_fees,
            more_events,
        ),
        old(intent).is_final ==> r is Err,
        r matches Ok(sz) ==> {
            &&& final(intent).intent_data@ == old(intent).intent_data@ + (match more_data {
                Some(d) => d@,
                None => Seq::<u8>::empty(),
            })
            &&& final(intent).max_fees@ == old(intent).max_fees@ + (match more_max_fees {
                Some(f) => f@,
                None => Seq::<TokenFee>::empty(),
            })
            &&& final(intent).events@ == old(intent).events@ + (match more_events {
                Some(e) => e@,
                None => Seq::<IntentEvent>::empty(),
            })
            &&& final(intent).is_final == finalize
            &&& final(intent).op == old(intent).op
            &&& final(intent).user == old(intent).user
            &&& final(intent).intent_creator == old(intent).intent_creator
            &&& final(intent).intent_hash == old(intent).intent_hash
            &&& final(intent).nonce == old(intent).nonce
            &&& final(intent).deadline == old(intent).deadline
            &&& final(intent).min_validations == old(intent).min_validations
            &&& final(intent).validations == old(intent).validations
            &&& final(intent).validators == old(intent).validators
            &&& final(intent).bump == old(intent).bump
            &&& final(intent).wf()
            &&& sz == spec_intent_extended_size(
                current_size as nat,
                more_data,
                more_max_fees,
                more_events,
            )
        },
        r matches Err(e) ==> {
            &&& *final(intent) == *old(intent)
            &&& e == extend_intent_err(
                *old(intent),
                current_size as nat,
                caller@,
                now,
                more_data,
                more_max_fees,
                more_events,
            )
        },
{
    if !crate::bytes::bytes_eq(&intent.intent_creator, caller) {
        return Err(SettlerError::IncorrectIntentCreator);
    }
    if intent.is_final {
        return Err(SettlerError::IntentIsFinal);
    }
    if !(intent.deadline > now) {
        return Err(SettlerError::IntentIsExpired);
    }
    let new_size = Intent::extended_size(current_size, &more_data, &more_max_fees, &more_events)?;

    match more_data {
        Some(mut d) => intent.intent_data.append(&mut d),
        None => {
            proof {
                assert(intent.intent_data@ =~= old(intent).intent_data@ + Seq::<u8>::empty());
            }
        },
    }
    match more_max_fees {
        Some(mut f) => intent.max_fees.append(&mut f),
        None => {
            proof {
                assert(intent.max_fees@ =~= old(intent).max_fees@ + Seq::<TokenFee>::empty());
            }
        },
    }
    match more_events {
        Some(mut e) => intent.events.append(&mut e),
        None => {
            proof {
                assert(intent.events@ =~= old(intent).events@ + Seq::<IntentEvent>::empty());
            }
        },
    }
    intent.is_final = finalize;

    Ok(new_size)
}

} // verus!
