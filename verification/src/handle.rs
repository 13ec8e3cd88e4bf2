//! The handle to a running tunnel.

use vstd::prelude::*;
use vstd::string::*;

use crate::error::Error;

verus! {

/// A live tunnel, as its owner sees it.
#[derive(Debug, PartialEq, Eq)]
pub struct TunnelHandle {
    /// The full public URL.
    pub url: String,
    /// The public host name.
    pub full_name: String,
    /// The subdomain part.
    pub subdomain: String,
    /// Whether it has been stopped.
    pub stopped: bool,
}

impl TunnelHandle {
    /// The URL is that of the host name.
    pub open spec fn well_formed(self) -> bool {
        self.url@ == "https://"@ + self.full_name@
    }

    /// A handle to a tunnel that has just been set up.
    pub fn new(full_name: String, subdomain: String) -> (r: Self)
        ensures
            r.well_formed(),
            r.full_name == full_name,
            r.subdomain == subdomain,
            !r.stopped,
    {
        let mut url = "https://".to_owned();
        url.append(full_name.as_str());
        TunnelHandle { url, full_name, subdomain, stopped: false }
    }

    /// The full public URL of the tunnel (always HTTPS).
    pub fn url(&self) -> (r: &str)
        ensures
            r@ == self.url@,
            self.well_formed() ==> r@ == "https://"@ + self.full_name@,
    {
        self.url.as_str()
    }

    /// The public hostname (`myapp.example.com`).
    pub fn full_name(&self) -> (r: &str)
        ensures
            r@ == self.full_name@,
    {
        self.full_name.as_str()
    }

    /// Just the subdomain part (`myapp`).
    pub fn subdomain(&self) -> (r: &str)
        ensures
            r@ == self.subdomain@,
    {
        self.subdomain.as_str()
    }

    /// Stops the tunnel. The first call is granted; any further one is told
    /// that the tunnel is already shut down. What follows a stop is up to
    /// [`LiveTunnel`](crate::live::LiveTunnel).
    pub fn stop(&mut self) -> (r: Result<(), Error>)
        ensures
            *final(self) == (TunnelHandle { stopped: true, ..*old(self) }),
            r == if old(self).stopped {
                Err::<(), Error>(Error::AlreadyShutDown)
            } else {
                Ok::<(), Error>(())
            },
    {
        if self.stopped {
            return Err(Error::AlreadyShutDown);
        }
        self.stopped = true;
        Ok(())
    }
}

/// A tunnel can be stopped once: the first call is granted, and after any call it
/// is stopped. Nothing else of it changes.
pub proof fn a_tunnel_is_stopped_once(handle: &mut TunnelHandle, r: Result<(), Error>)
    requires
        call_ensures(TunnelHandle::stop, (handle,), r),
    ensures
        r is Ok <==> !old(handle).stopped,
        final(handle).stopped,
        final(handle).url == old(handle).url,
{
}

/// A handle shows the names that it was made with, and the secure URL of the host
/// name.
pub proof fn handles_show_their_names(
    full_name: String,
    subdomain: String,
    handle: TunnelHandle,
    url: &str,
    host: &str,
    name: &str,
)
    requires
        call_ensures(TunnelHandle::new, (full_name, subdomain), handle),
        call_ensures(TunnelHandle::url, (&handle,), url),
        call_ensures(TunnelHandle::full_name, (&handle,), host),
        call_ensures(TunnelHandle::subdomain, (&handle,), name),
    ensures
        url@ == "https://"@ + full_name@,
        host@ == full_name@,
        name@ == subdomain@,
        !handle.stopped,
{
}

} // verus!
