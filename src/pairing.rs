//! The publishing side: the QR pairing handshake's three steps and the
//! direct publication of events by mutations. Pairing keeps no session
//! record; the device id alone correlates the viewer and the scanner.
use vstd::prelude::*;

use crate::bus::{BusError, BusView, EventBus};
use crate::error::AppError;
use crate::event::DomainEvent;
use crate::models::UserId;

verus! {

/// Publishing `e` took the bus from `pre` to `post` and gave `r`: whether any
/// subscriber was attached, or `BusUnavailable` when the bus is used up.
pub open spec fn announced(pre: BusView, post: BusView, e: DomainEvent, r: Result<bool, AppError>) -> bool {
    if pre.history.len() == u64::MAX {
        r == Err::<bool, AppError>(AppError::BusUnavailable) && post == pre
    } else {
        r == Ok::<bool, AppError>(pre.cursors.len() > 0) && post == (BusView {
            history: pre.history.push(e),
            ..pre
        })
    }
}

/// A step of the handshake by `user`: refused without an identity, else `e`
/// is published.
pub open spec fn authenticated_announce(
    user: Option<UserId>,
    pre: BusView,
    post: BusView,
    e: DomainEvent,
    r: Result<bool, AppError>,
) -> bool {
    match user {
        None => r == Err::<bool, AppError>(AppError::GetGraphqlUserIdError) && post == pre,
        Some(_) => announced(pre, post, e, r),
    }
}

/// Publishes `e` directly, as a mutation does after its write. Having no
/// subscriber is no failure: the result says whether any was attached.
pub fn announce(bus: &mut EventBus, e: DomainEvent) -> (r: Result<bool, AppError>)
    requires
        old(bus).wf(),
    ensures
        final(bus).wf(),
        announced(old(bus)@, final(bus)@, e, r),
{
    proof {
        bus.lemma_view_wf();
    }
    match bus.publish(e) {
        Ok(n) => Ok(n > 0),
        Err(BusError::Exhausted) => Err(AppError::BusUnavailable),
    }
}

/// The scanner saw the viewer's code: publishes `QRScanned`.
pub fn scanned(bus: &mut EventBus, user: Option<UserId>, device_uuid: String) -> (r: Result<
    bool,
    AppError,
>)
    requires
        old(bus).wf(),
    ensures
        final(bus).wf(),
        authenticated_announce(
            user,
            old(bus)@,
            final(bus)@,
            DomainEvent::QRScanned { device_id: device_uuid },
            r,
        ),
{
    match user {
        None => Err(AppError::GetGraphqlUserIdError),
        Some(_) => announce(bus, DomainEvent::QRScanned { device_id: device_uuid }),
    }
}

/// The scanner declined: publishes `QRCancelled`.
pub fn cancel_scanned(bus: &mut EventBus, user: Option<UserId>, device_uuid: String) -> (r: Result<
    bool,
    AppError,
>)
    requires
        old(bus).wf(),
    ensures
        final(bus).wf(),
        authenticated_announce(
            user,
            old(bus)@,
            final(bus)@,
            DomainEvent::QRCancelled { device_id: device_uuid },
            r,
        ),
{
    match user {
        None => Err(AppError::GetGraphqlUserIdError),
        Some(_) => announce(bus, DomainEvent::QRCancelled { device_id: device_uuid }),
    }
}

/// The scanner confirmed: publishes `QRConfirmed` with `token`, a credential
/// freshly signed for the scanner's own id.
pub fn scan_signin(
    bus: &mut EventBus,
    user: Option<UserId>,
    device_uuid: String,
    token: String,
) -> (r: Result<bool, AppError>)
    requires
        old(bus).wf(),
    ensures
        final(bus).wf(),
        authenticated_announce(
            user,
            old(bus)@,
            final(bus)@,
            DomainEvent::QRConfirmed { device_id: device_uuid, token },
            r,
        ),
{
    match user {
        None => Err(AppError::GetGraphqlUserIdError),
        Some(_) => announce(bus, DomainEvent::QRConfirmed { device_id: device_uuid, token }),
    }
}

} // verus!
