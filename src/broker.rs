//! The broker client: created once at startup and read by every watcher.
use vstd::prelude::*;
use url::Url;

verus! {

#[verifier::external_type_specification]
#[verifier::external_body]
pub struct ExUrl(Url);

/// Why the broker client could not be set up.
#[derive(Clone, Debug, PartialEq, Eq)]
pub enum BrokerInitError {
    /// The configuration lists no broker endpoint.
    EmptyEndpoints,
    /// Connecting to the broker failed, with the cause.
    ConnectFailed(String),
}

/// Holds the broker client once it is set up; it is set at most once and
/// never changed after.
pub struct BrokerClientSlot<C> {
    client: Option<C>,
}

impl<C> BrokerClientSlot<C> {
    pub closed spec fn client_spec(&self) -> Option<C> {
        self.client
    }

    pub open spec fn is_set(&self) -> bool {
        self.client_spec() is Some
    }

    pub fn new() -> (r: BrokerClientSlot<C>)
        ensures
            r.client_spec() is None,
    {
        BrokerClientSlot { client: None }
    }
}

/// Whether the broker client has been set up.
pub fn is_etcd_client_initialized<C>(slot: &BrokerClientSlot<C>) -> (r: bool)
    ensures
        r == slot.is_set(),
{
    slot.client.is_some()
}

/// The broker client; reading it before it is set up is a programming error.
pub fn get_etcd_client<C>(slot: &BrokerClientSlot<C>) -> (r: &C)
    requires
        slot.is_set(),
    ensures
        Some(*r) == slot.client_spec(),
{
    slot.client.as_ref().unwrap()
}

/// The first step of startup: the configuration must name at least one
/// broker endpoint.
pub fn check_broker_endpoints(endpoints: &Vec<Url>) -> (r: Result<(), BrokerInitError>)
    ensures
        endpoints@.len() > 0 ==> r is Ok,
        endpoints@.len() == 0 ==> r == Err::<(), BrokerInitError>(BrokerInitError::EmptyEndpoints),
{
    if endpoints.len() == 0 {
        Err(BrokerInitError::EmptyEndpoints)
    } else {
        Ok(())
    }
}

/// The last step of startup, once the connection attempt has returned:
/// a connected client is installed, a failed attempt is reported and leaves
/// the slot empty. Setting the client up twice is a programming error.
pub fn complete_broker_init<C>(slot: &mut BrokerClientSlot<C>, connected: Result<C, String>) -> (r:
    Result<(), BrokerInitError>)
    requires
        !old(slot).is_set(),
    ensures
        match connected {
            Ok(c) => r is Ok && final(slot).client_spec() == Some(c),
            Err(m) => r == Err::<(), BrokerInitError>(BrokerInitError::ConnectFailed(m))
                && !final(slot).is_set(),
        },
{
    match connected {
        Ok(c) => {
            slot.client = Some(c);
            Ok(())
        },
        Err(m) => Err(BrokerInitError::ConnectFailed(m)),
    }
}

} // verus!
