//! The tunnel descriptor and its lifecycle: fluent configuration, creation
//! against the daemon's response, and address resolution.
//!
//! The daemon is reached over HTTP by the surrounding application; the
//! functions here receive each response already parsed into [`Response`] and
//! decide what it means for the descriptor. Two behaviours this crate fixes
//! deliberately: a version header that is present but not a valid semantic
//! version is treated like a missing one (the server is refused as
//! incompatible), and the pending-port check applies to non-HTTP tunnels
//! only.

use vstd::prelude::*;

use crate::lokal::Lokal;
use crate::strutil::contains_char;
use crate::strutil::ends_with;
use crate::strutil::lemma_strip_all_append;
use crate::strutil::lemma_strip_all_clears_suffix;
use crate::strutil::str_contains_char;
use crate::strutil::str_ends_with;
use crate::strutil::strip_all;
use crate::strutil::strip_suffix_repeated;
use crate::version::check_server_version;
use crate::version::header_supported;

verus! {

/// The kind of tunnel requested from the daemon.
#[derive(Debug, Clone, Copy, PartialEq, Eq, Structural)]
pub enum TunnelType {
    HTTP,
    TCP,
}

/// Pass-through tunnel options: rule lists the daemon interprets.
pub struct Options {
    pub basic_auth: Vec<String>,
    pub cidr_allow: Vec<String>,
    pub cidr_deny: Vec<String>,
    pub request_header_add: Vec<String>,
    pub request_header_remove: Vec<String>,
    pub response_header_add: Vec<String>,
    pub response_header_remove: Vec<String>,
    pub header_key: Vec<String>,
}

/// All option lists are empty.
pub open spec fn options_all_empty(o: Options) -> bool {
    &&& o.basic_auth@.len() == 0
    &&& o.cidr_allow@.len() == 0
    &&& o.cidr_deny@.len() == 0
    &&& o.request_header_add@.len() == 0
    &&& o.request_header_remove@.len() == 0
    &&& o.response_header_add@.len() == 0
    &&& o.response_header_remove@.len() == 0
    &&& o.header_key@.len() == 0
}

/// One tunnel record as the daemon reports it.
pub struct TunnelResponse {
    pub address_public: String,
    pub address_mdns: String,
    pub id: String,
}

/// The daemon's response envelope, already parsed from JSON.
pub struct Response {
    pub success: bool,
    pub message: String,
    pub tunnel: Option<Vec<TunnelResponse>>,
}

/// What can go wrong in the tunnel lifecycle. Transport failures are the
/// surrounding application's concern and have no variant here.
#[derive(Debug, PartialEq, Eq)]
pub enum TunnelError {
    /// Creation was attempted with neither a LAN nor a public address.
    ConfigurationError,
    /// The daemon's version header was missing, unparseable, or below the
    /// minimum supported version.
    IncompatibleServerError,
    /// The daemon returned an empty record list.
    TunnelCreationError,
    /// The daemon rejected the request; carries its message verbatim.
    RemoteRejectionError(String),
    /// An address was queried that was never requested.
    NotConfiguredError,
    /// The daemon has not assigned a port yet; resolve again later.
    PendingAssignmentError,
    /// A resolution response still carried an address without a port.
    PortNotAssignedError,
}

/// The tunnel descriptor: requested configuration together with the
/// addresses and identifier the daemon assigned.
pub struct Tunnel {
    pub lokal: Option<Lokal>,
    pub id: Option<String>,
    pub name: String,
    pub tunnel_type: TunnelType,
    pub local_address: String,
    pub server_id: String,
    pub address_tunnel: String,
    pub address_tunnel_port: i64,
    pub address_public: String,
    pub address_mdns: String,
    pub inspect: bool,
    pub options: Options,
    pub ignore_duplicate: bool,
    pub startup_banner: bool,
}

/// The LAN domain suffix.
pub open spec fn local_suffix() -> Seq<char> {
    ".local"@
}

/// What `set_lan_address` stores for the input `x`: the name with every
/// trailing ".local" removed.
pub open spec fn stored_lan(x: Seq<char>) -> Seq<char> {
    strip_all(x, local_suffix())
}

/// What `get_lan_address` returns for a non-empty stored name: the name with
/// ".local" appended unless it already ends with it.
pub open spec fn resolved_lan(s: Seq<char>) -> Seq<char> {
    if ends_with(s, local_suffix()) {
        s
    } else {
        s + local_suffix()
    }
}

/// Neither a LAN nor a public address has been configured.
pub open spec fn no_address_configured(t: Tunnel) -> bool {
    t.address_mdns@.len() == 0 && t.address_public@.len() == 0
}

/// The daemon's rejection message reports an address collision.
pub open spec fn duplicate_message(m: Seq<char>) -> bool {
    ends_with(m, "address is already being used"@)
}

/// The response carries a record list that is present but empty.
pub open spec fn empty_record_list(resp: Response) -> bool {
    match resp.tunnel {
        Some(ts) => ts@.len() == 0,
        None => false,
    }
}

/// `t1` is `t0` with the public and LAN addresses taken from the first
/// record of `resp`, and with that record's identifier adopted only where
/// `t0` had none: the daemon-assigned identifier is immutable once set.
/// Where `resp` carries no record list, `t1` is `t0` unchanged.
pub open spec fn adopts_first_record(t0: Tunnel, t1: Tunnel, resp: Response) -> bool {
    match resp.tunnel {
        Some(ts) => ts@.len() > 0 && t1 == (Tunnel {
            address_public: ts@[0].address_public,
            address_mdns: ts@[0].address_mdns,
            id: if t0.id is Some {
                t0.id
            } else {
                Some(ts@[0].id)
            },
            ..t0
        }),
        None => t1 == t0,
    }
}

/// The rejection is tolerated as a duplicate: tolerance is on and the
/// message reports an address collision.
pub open spec fn tolerated_duplicate(t: Tunnel, resp: Response) -> bool {
    t.ignore_duplicate && duplicate_message(resp.message@)
}

impl Tunnel {
    /// A fresh descriptor owning `lokal`: every address empty, no identifier,
    /// type HTTP, all flags off, all option lists empty.
    pub fn new(lokal: Lokal) -> (r: Tunnel)
        ensures
            r.lokal == Some(lokal),
            r.id is None,
            r.name@ == Seq::<char>::empty(),
            r.tunnel_type == TunnelType::HTTP,
            r.local_address@ == Seq::<char>::empty(),
            r.server_id@ == Seq::<char>::empty(),
            r.address_tunnel@ == Seq::<char>::empty(),
            r.address_tunnel_port == 0,
            r.address_public@ == Seq::<char>::empty(),
            r.address_mdns@ == Seq::<char>::empty(),
            !r.inspect,
            options_all_empty(r.options),
            !r.ignore_duplicate,
            !r.startup_banner,
    {
        Tunnel {
            lokal: Some(lokal),
            id: None,
            name: String::new(),
            tunnel_type: TunnelType::HTTP,
            local_address: String::new(),
            server_id: String::new(),
            address_tunnel: String::new(),
            address_tunnel_port: 0,
            address_public: String::new(),
            address_mdns: String::new(),
            inspect: false,
            options: Options {
                basic_auth: Vec::new(),
                cidr_allow: Vec::new(),
                cidr_deny: Vec::new(),
                request_header_add: Vec::new(),
                request_header_remove: Vec::new(),
                response_header_add: Vec::new(),
                response_header_remove: Vec::new(),
                header_key: Vec::new(),
            },
            ignore_duplicate: false,
            startup_banner: false,
        }
    }

    /// Replaces the local (forwarded-to) address.
    pub fn set_local_address(self, local_address: String) -> (r: Tunnel)
        ensures
            r == (Tunnel { local_address, ..self }),
    {
        Tunnel { local_address, ..self }
    }

    /// Replaces the tunnel type.
    pub fn set_tunnel_type(self, tunnel_type: TunnelType) -> (r: Tunnel)
        ensures
            r == (Tunnel { tunnel_type, ..self }),
    {
        Tunnel { tunnel_type, ..self }
    }

    /// Toggles request inspection.
    pub fn set_inspection(self, inspect: bool) -> (r: Tunnel)
        ensures
            r == (Tunnel { inspect, ..self }),
    {
        Tunnel { inspect, ..self }
    }

    /// Requests a LAN address: stores `lan_address` with every trailing
    /// ".local" removed, so the stored value is the bare hostname.
    pub fn set_lan_address(self, lan_address: String) -> (r: Tunnel)
        ensures
            r.address_mdns@ == stored_lan(lan_address@),
            r == (Tunnel { address_mdns: r.address_mdns, ..self }),
    {
        let bare = strip_suffix_repeated(lan_address.as_str(), ".local");
        Tunnel { address_mdns: bare, ..self }
    }

    /// Requests the given public address.
    pub fn set_public_address(self, public_address: String) -> (r: Tunnel)
        ensures
            r == (Tunnel { address_public: public_address, ..self }),
    {
        Tunnel { address_public: public_address, ..self }
    }

    /// Replaces the display name.
    pub fn set_name(self, name: String) -> (r: Tunnel)
        ensures
            r == (Tunnel { name, ..self }),
    {
        Tunnel { name, ..self }
    }

    /// Tolerates an address-collision rejection by adopting the existing
    /// tunnel instead of failing.
    pub fn ignore_duplicate(self) -> (r: Tunnel)
        ensures
            r == (Tunnel { ignore_duplicate: true, ..self }),
    {
        Tunnel { ignore_duplicate: true, ..self }
    }

    /// Asks for the startup banner once the tunnel is resolved.
    pub fn show_startup_banner(self) -> (r: Tunnel)
        ensures
            r == (Tunnel { startup_banner: true, ..self }),
    {
        Tunnel { startup_banner: true, ..self }
    }

    /// The descriptor asks for at least one address, so a creation request
    /// may be submitted.
    pub fn can_create(&self) -> (r: bool)
        ensures
            r == !no_address_configured(*self),
    {
        !(self.address_mdns.as_str().is_empty() && self.address_public.as_str().is_empty())
    }

    /// Interprets the daemon's answer to a creation request.
    ///
    /// `version_header` is the daemon's version header, if the response
    /// carried one; `resp` is the parsed response body. In order: a
    /// descriptor with no address configured is refused; a missing,
    /// unparseable or outdated version refuses the server; a present but
    /// empty record list fails creation; a rejection is adopted as a
    /// duplicate where tolerated, and reported verbatim otherwise; on
    /// success the first record's addresses and identifier are adopted.
    /// The identifier is assigned by the first successful or
    /// duplicate-reconciled submission and never replaced afterwards.
    pub fn create(&mut self, version_header: Option<String>, resp: Response) -> (r: Result<
        (),
        TunnelError,
    >)
        ensures
            old(self).id is Some ==> final(self).id == old(self).id,
            no_address_configured(*old(self)) ==> r == Err::<(), TunnelError>(
                TunnelError::ConfigurationError,
            ) && *final(self) == *old(self),
            !no_address_configured(*old(self)) && !header_supported(version_header) ==> r
                == Err::<(), TunnelError>(TunnelError::IncompatibleServerError) && *final(self) == *old(
                self,
            ),
            !no_address_configured(*old(self)) && header_supported(version_header)
                && empty_record_list(resp) ==> r == Err::<(), TunnelError>(
                TunnelError::TunnelCreationError,
            ) && *final(self) == *old(self),
            !no_address_configured(*old(self)) && header_supported(version_header)
                && !empty_record_list(resp) && resp.success ==> r == Ok::<(), TunnelError>(())
                && adopts_first_record(*old(self), *final(self), resp),
            !no_address_configured(*old(self)) && header_supported(version_header)
                && !empty_record_list(resp) && !resp.success && tolerated_duplicate(
                *old(self),
                resp,
            ) ==> r == Ok::<(), TunnelError>(()) && adopts_first_record(*old(self), *final(self), resp),
            !no_address_configured(*old(self)) && header_supported(version_header)
                && !empty_record_list(resp) && !resp.success && !tolerated_duplicate(
                *old(self),
                resp,
            ) ==> r == Err::<(), TunnelError>(TunnelError::RemoteRejectionError(resp.message))
                && *final(self) == *old(self),
    {
        if self.address_mdns.as_str().is_empty() && self.address_public.as_str().is_empty() {
            return Err(TunnelError::ConfigurationError);
        }
        if !check_server_version(&version_header) {
            return Err(TunnelError::IncompatibleServerError);
        }
        match &resp.tunnel {
            Some(ts) => {
                if ts.len() == 0 {
                    return Err(TunnelError::TunnelCreationError);
                }
            },
            None => {},
        }
        if !resp.success {
            if self.ignore_duplicate && str_ends_with(
                resp.message.as_str(),
                "address is already being used",
            ) {
                self.adopt_first_record(resp);
                return Ok(());
            }
            return Err(TunnelError::RemoteRejectionError(resp.message));
        }
        self.adopt_first_record(resp);
        Ok(())
    }

    /// Copies the first record's addresses into the descriptor and adopts
    /// its identifier where none is set yet; a response without a record
    /// list changes nothing.
    fn adopt_first_record(&mut self, resp: Response)
        requires
            !empty_record_list(resp),
        ensures
            adopts_first_record(*old(self), *final(self), resp),
    {
        match resp.tunnel {
            Some(ts) => {
                self.address_public = ts[0].address_public.clone();
                self.address_mdns = ts[0].address_mdns.clone();
                if self.id.is_none() {
                    self.id = Some(ts[0].id.clone());
                }
            },
            None => {},
        }
    }

    /// The LAN address as reachable on the network: the stored bare hostname
    /// with ".local" appended. Fails where no LAN address was configured.
    pub fn get_lan_address(&self) -> (r: Result<String, TunnelError>)
        ensures
            self.address_mdns@.len() == 0 ==> r == Err::<String, TunnelError>(
                TunnelError::NotConfiguredError,
            ),
            self.address_mdns@.len() > 0 ==> (r matches Ok(a) && a@ == resolved_lan(
                self.address_mdns@,
            )),
    {
        if self.address_mdns.as_str().is_empty() {
            return Err(TunnelError::NotConfiguredError);
        }
        if !str_ends_with(self.address_mdns.as_str(), ".local") {
            let resolved = self.address_mdns.clone().concat(".local");
            return Ok(resolved);
        }
        Ok(self.address_mdns.clone())
    }

    /// The public address, where one is ready. Fails where none was
    /// configured; on a non-HTTP tunnel whose stored address carries no
    /// port, reports that the port assignment is still pending — the caller
    /// resolves the assigned port and asks again.
    pub fn get_public_address(&self) -> (r: Result<String, TunnelError>)
        ensures
            self.address_public@.len() == 0 ==> r == Err::<String, TunnelError>(
                TunnelError::NotConfiguredError,
            ),
            self.address_public@.len() > 0 && self.tunnel_type != TunnelType::HTTP
                && !contains_char(self.address_public@, ':') ==> r == Err::<String, TunnelError>(
                TunnelError::PendingAssignmentError,
            ),
            self.address_public@.len() > 0 && (self.tunnel_type == TunnelType::HTTP
                || contains_char(self.address_public@, ':')) ==> (r matches Ok(a) && a@
                == self.address_public@),
    {
        if self.address_public.as_str().is_empty() {
            return Err(TunnelError::NotConfiguredError);
        }
        if self.tunnel_type != TunnelType::HTTP {
            if !str_contains_char(self.address_public.as_str(), ':') {
                return Err(TunnelError::PendingAssignmentError);
            }
        }
        Ok(self.address_public.clone())
    }

    /// Interprets the daemon's answer to a port-resolution query: a
    /// rejection is reported verbatim; an empty record list fails; a first
    /// record whose address still carries no port leaves the descriptor
    /// unchanged and reports the port as unassigned; otherwise the public
    /// address is overwritten with the resolved one.
    pub fn update_public_url_port(&mut self, resp: Response) -> (r: Result<(), TunnelError>)
        ensures
            !resp.success ==> r == Err::<(), TunnelError>(
                TunnelError::RemoteRejectionError(resp.message),
            ) && *final(self) == *old(self),
            resp.success && resp.tunnel is None ==> r == Ok::<(), TunnelError>(()) && *final(self) == *old(
                self,
            ),
            resp.success ==> (resp.tunnel matches Some(ts) ==> {
                &&& ts@.len() == 0 ==> r == Err::<(), TunnelError>(TunnelError::TunnelCreationError)
                    && *final(self) == *old(self)
                &&& ts@.len() > 0 && !contains_char(ts@[0].address_public@, ':') ==> r == Err::<
                    (),
                    TunnelError,
                >(TunnelError::PortNotAssignedError) && *final(self) == *old(self)
                &&& ts@.len() > 0 && contains_char(ts@[0].address_public@, ':') ==> r == Ok::<
                    (),
                    TunnelError,
                >(()) && *final(self) == (Tunnel {
                    address_public: ts@[0].address_public,
                    ..*old(self)
                })
            }),
    {
        if !resp.success {
            return Err(TunnelError::RemoteRejectionError(resp.message));
        }
        match resp.tunnel {
            Some(ts) => {
                if ts.len() == 0 {
                    return Err(TunnelError::TunnelCreationError);
                }
                if !str_contains_char(ts[0].address_public.as_str(), ':') {
                    return Err(TunnelError::PortNotAssignedError);
                }
                self.address_public = ts[0].address_public.clone();
                Ok(())
            },
            None => Ok(()),
        }
    }
}

/// Law: for a non-empty name `x` that does not already end in ".local",
/// storing it as the LAN address and resolving it yields exactly
/// `x + ".local"`, and repeating the store/resolve round trip is stable.
pub proof fn lemma_lan_round_trip(x: Seq<char>)
    requires
        x.len() > 0,
        !ends_with(x, local_suffix()),
    ensures
        resolved_lan(stored_lan(x)) == x + local_suffix(),
        stored_lan(resolved_lan(stored_lan(x))) == stored_lan(x),
        resolved_lan(stored_lan(resolved_lan(stored_lan(x)))) == resolved_lan(stored_lan(x)),
{
    reveal_strlit(".local");
    assert(local_suffix().len() == 6);
    assert(stored_lan(x) == x);
    lemma_strip_all_append(x, local_suffix());
}

/// Law: the stored LAN name never ends in ".local", so resolution always
/// appends the suffix exactly once.
pub proof fn lemma_stored_lan_bare(x: Seq<char>)
    ensures
        !ends_with(stored_lan(x), local_suffix()),
        resolved_lan(stored_lan(x)) == stored_lan(x) + local_suffix(),
{
    reveal_strlit(".local");
    assert(local_suffix().len() == 6);
    lemma_strip_all_clears_suffix(x, local_suffix());
}

} // verus!
