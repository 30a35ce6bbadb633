//! Decisions of the webhook endpoint: which deliveries are rejected, which
//! are acknowledged as already seen, and which are stored and processed.
use vstd::prelude::*;
use crate::signature::{signature_valid, verify_signature};

verus! {

pub const STATUS_OK: u16 = 200;

pub const STATUS_BAD_REQUEST: u16 = 400;

pub const STATUS_UNAUTHORIZED: u16 = 401;

/// What the endpoint does with one delivery: the status it answers (once the
/// event is stored, when `store` is set), whether it stores a new pending
/// event, and whether it starts processing it.
#[derive(Clone, Copy, Debug, PartialEq, Eq, Structural)]
pub struct Receipt {
    pub status: u16,
    pub store: bool,
    pub process: bool,
}

pub open spec fn opt_view(o: Option<&str>) -> Option<Seq<char>> {
    match o {
        Some(s) => Some(s@),
        None => None,
    }
}

/// The status with which a delivery is turned away before the store is
/// consulted, if it is: a missing signature is unauthorised, a missing event
/// type or delivery id a bad request, a wrong signature unauthorised.
pub open spec fn rejection_of(
    signature: Option<Seq<char>>,
    event_type: Option<Seq<char>>,
    delivery_id: Option<Seq<char>>,
    body: Seq<u8>,
    secret: Seq<u8>,
) -> Option<u16> {
    match signature {
        None => Some(STATUS_UNAUTHORIZED),
        Some(h) => if event_type is None || delivery_id is None {
            Some(STATUS_BAD_REQUEST)
        } else if !signature_valid(body, secret, h) {
            Some(STATUS_UNAUTHORIZED)
        } else {
            None
        },
    }
}

/// The receipt of an admitted delivery: one already stored is acknowledged
/// and nothing more; a body that is not JSON is a bad request; otherwise the
/// event is stored as pending and processed.
pub open spec fn admitted_receipt(seen: bool, payload_ok: bool) -> Receipt {
    if seen {
        Receipt { status: STATUS_OK, store: false, process: false }
    } else if !payload_ok {
        Receipt { status: STATUS_BAD_REQUEST, store: false, process: false }
    } else {
        Receipt { status: STATUS_OK, store: true, process: true }
    }
}

pub open spec fn receipt_of(
    signature: Option<Seq<char>>,
    event_type: Option<Seq<char>>,
    delivery_id: Option<Seq<char>>,
    body: Seq<u8>,
    secret: Seq<u8>,
    seen: bool,
    payload_ok: bool,
) -> Receipt {
    match rejection_of(signature, event_type, delivery_id, body, secret) {
        Some(status) => Receipt { status, store: false, process: false },
        None => admitted_receipt(seen, payload_ok),
    }
}

/// Checks the headers and the signature of a delivery; `Err` holds the
/// status of the rejection.
pub fn admit_webhook(
    signature: Option<&str>,
    event_type: Option<&str>,
    delivery_id: Option<&str>,
    body: &[u8],
    secret: &[u8],
) -> (r: Result<(), u16>)
    ensures
        r matches Err(s) ==> rejection_of(
            opt_view(signature),
            opt_view(event_type),
            opt_view(delivery_id),
            body@,
            secret@,
        ) == Some(s),
        r is Ok ==> rejection_of(
            opt_view(signature),
            opt_view(event_type),
            opt_view(delivery_id),
            body@,
            secret@,
        ) is None,
{
    match signature {
        None => Err(STATUS_UNAUTHORIZED),
        Some(h) => {
            if event_type.is_none() || delivery_id.is_none() {
                Err(STATUS_BAD_REQUEST)
            } else if !verify_signature(body, secret, h) {
                Err(STATUS_UNAUTHORIZED)
            } else {
                Ok(())
            }
        },
    }
}

/// The receipt of an admitted delivery, given whether its delivery id is
/// already stored and whether its body parsed as JSON.
pub fn receipt_after_admission(seen: bool, payload_ok: bool) -> (r: Receipt)
    ensures
        r == admitted_receipt(seen, payload_ok),
{
    if seen {
        Receipt { status: STATUS_OK, store: false, process: false }
    } else if !payload_ok {
        Receipt { status: STATUS_BAD_REQUEST, store: false, process: false }
    } else {
        Receipt { status: STATUS_OK, store: true, process: true }
    }
}

/// The whole decision for one delivery. Nothing is stored without a valid
/// signature, and a delivery with all headers and a wrong signature is
/// answered 401.
pub fn receive_webhook(
    signature: Option<&str>,
    event_type: Option<&str>,
    delivery_id: Option<&str>,
    body: &[u8],
    secret: &[u8],
    seen: bool,
    payload_ok: bool,
) -> (r: Receipt)
    ensures
        r == receipt_of(
            opt_view(signature),
            opt_view(event_type),
            opt_view(delivery_id),
            body@,
            secret@,
            seen,
            payload_ok,
        ),
        r.store ==> (signature matches Some(h) && signature_valid(body@, secret@, h@)),
        r.process ==> r.store,
        (signature matches Some(h) && event_type is Some && delivery_id is Some
            && !signature_valid(body@, secret@, h@)) ==> (r.status == STATUS_UNAUTHORIZED
            && !r.store),
{
    match admit_webhook(signature, event_type, delivery_id, body, secret) {
        Err(status) => Receipt { status, store: false, process: false },
        Ok(()) => receipt_after_admission(seen, payload_ok),
    }
}

/// The delivery ids stored after a receipt.
pub open spec fn stored_after(ids: Set<Seq<char>>, delivery_id: Seq<char>, r: Receipt) -> Set<
    Seq<char>,
> {
    if r.store {
        ids.insert(delivery_id)
    } else {
        ids
    }
}

/// Replaying a delivery is a no-op: the second receipt stores nothing and
/// starts no processing, the stored ids stay as the first receipt left them,
/// and a delivery stored the first time is acknowledged with 200.
pub proof fn lemma_replay_is_noop(
    ids: Set<Seq<char>>,
    signature: Option<Seq<char>>,
    event_type: Option<Seq<char>>,
    delivery_id: Seq<char>,
    body: Seq<u8>,
    secret: Seq<u8>,
    payload_ok: bool,
)
    ensures
        ({
            let r1 = receipt_of(
                signature,
                event_type,
                Some(delivery_id),
                body,
                secret,
                ids.contains(delivery_id),
                payload_ok,
            );
            let ids1 = stored_after(ids, delivery_id, r1);
            let r2 = receipt_of(
                signature,
                event_type,
                Some(delivery_id),
                body,
                secret,
                ids1.contains(delivery_id),
                payload_ok,
            );
            &&& !r2.store
            &&& !r2.process
            &&& stored_after(ids1, delivery_id, r2) == ids1
            &&& (r1.store ==> r2.status == STATUS_OK)
        }),
{
}

} // verus!
