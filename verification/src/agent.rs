//! Bluetooth authorization agent: the capability that an agent announces
//! for the handlers it has, and how it answers each request of the daemon.
use vstd::prelude::*;
use crate::Address;
use crate::device::{device_path_parse, parse_device_dbus_path};
use crate::foreign::{parse_uuid, uuid_parsed};
use crate::text::{owned, str_eq};

verus! {

/// Error response from us to a Bluetooth agent request.
#[derive(Clone, Copy, Debug, PartialEq, Eq, Structural)]
pub enum ReqError {
    /// Request was rejected.
    Rejected,
    /// Request was canceled.
    Canceled,
}

impl ReqError {
    /// The default error: `Canceled`.
    pub fn default() -> (r: ReqError)
        ensures
            r == ReqError::Canceled,
    {
        ReqError::Canceled
    }

    /// The message of the error (its `Display` form).
    pub fn to_string(&self) -> (r: String)
        ensures
            *self == ReqError::Rejected ==> r@ == "Request was rejected."@,
            *self == ReqError::Canceled ==> r@ == "Request was canceled."@,
    {
        match self {
            ReqError::Rejected => owned("Request was rejected."),
            ReqError::Canceled => owned("Request was canceled."),
        }
    }

    /// The D-Bus error name of the reply: `org.bluez.Error.` and the
    /// variant name.
    pub fn dbus_error_name(&self) -> (r: String)
        ensures
            *self == ReqError::Rejected ==> r@ == "org.bluez.Error.Rejected"@,
            *self == ReqError::Canceled ==> r@ == "org.bluez.Error.Canceled"@,
    {
        match self {
            ReqError::Rejected => owned("org.bluez.Error.Rejected"),
            ReqError::Canceled => owned("org.bluez.Error.Canceled"),
        }
    }
}

/// Arguments for a pin code request.
#[derive(Clone, Debug)]
pub struct RequestPinCode {
    /// Adapter making the request.
    pub adapter: String,
    /// Address of device making the request.
    pub device: Address,
}

/// Argument for a passkey request.
#[derive(Clone, Debug)]
pub struct RequestPasskey {
    /// Adapter making the request.
    pub adapter: String,
    /// Address of device making the request.
    pub device: Address,
}

/// Arguments for a confirmation request.
#[derive(Clone, Debug)]
pub struct RequestConfirmation {
    /// Adapter making the request.
    pub adapter: String,
    /// Address of device making the request.
    pub device: Address,
    /// Passkey.
    pub passkey: u32,
}

/// Arguments for an authorization request.
#[derive(Clone, Debug)]
pub struct RequestAuthorization {
    /// Adapter making the request.
    pub adapter: String,
    /// Address of device making the request.
    pub device: Address,
}

/// Arguments for an authorize service request.
#[derive(Clone, Debug)]
pub struct AuthorizeService {
    /// Adapter making the request.
    pub adapter: String,
    /// Address of device making the request.
    pub device: Address,
    /// Service UUID, as its 128-bit value.
    pub service: u128,
}

/// Which request handlers an agent has.  A request without a handler is
/// rejected.
#[derive(Clone, Copy, Debug, PartialEq, Eq, Structural)]
pub struct AgentHandlers {
    /// A pin code request handler.
    pub request_pin_code: bool,
    /// A display pin code handler.
    pub display_pin_code: bool,
    /// A passkey request handler.
    pub request_passkey: bool,
    /// A display passkey handler.
    pub display_passkey: bool,
    /// A confirmation request handler.
    pub request_confirmation: bool,
    /// An authorization request handler.
    pub request_authorization: bool,
    /// An authorize service handler.
    pub authorize_service: bool,
}

/// The input/output capability that an agent announces to BlueZ.
#[derive(Clone, Copy, Debug, PartialEq, Eq, Structural)]
pub enum AgentCapability {
    /// Can display and read a keyboard.
    KeyboardDisplay,
    /// Keyboard only.
    KeyboardOnly,
    /// Display only.
    DisplayOnly,
    /// Display and a yes/no input.
    DisplayYesNo,
    /// No input and no output.
    NoInputNoOutput,
}

/// The agent can read a passkey or pin code.
pub open spec fn has_keyboard(h: AgentHandlers) -> bool {
    h.request_passkey || h.request_pin_code
}

/// The agent can display a passkey or pin code.
pub open spec fn has_display(h: AgentHandlers) -> bool {
    h.display_passkey || h.display_pin_code
}

/// The agent can answer yes or no.
pub open spec fn has_yes_no(h: AgentHandlers) -> bool {
    h.request_confirmation || h.request_authorization || h.authorize_service
}

/// The capability that an agent with these handlers announces.
pub open spec fn capability_of(h: AgentHandlers) -> AgentCapability {
    let k = has_keyboard(h);
    let d = has_display(h);
    let y = has_yes_no(h);
    if k && !d && !y {
        AgentCapability::KeyboardOnly
    } else if !k && d && !y {
        AgentCapability::DisplayOnly
    } else if !k && y {
        AgentCapability::DisplayYesNo
    } else if k {
        AgentCapability::KeyboardDisplay
    } else {
        AgentCapability::NoInputNoOutput
    }
}

/// The BlueZ name of a capability.
pub open spec fn capability_text(c: AgentCapability) -> Seq<char> {
    match c {
        AgentCapability::KeyboardDisplay => "KeyboardDisplay"@,
        AgentCapability::KeyboardOnly => "KeyboardOnly"@,
        AgentCapability::DisplayOnly => "DisplayOnly"@,
        AgentCapability::DisplayYesNo => "DisplayYesNo"@,
        AgentCapability::NoInputNoOutput => "NoInputNoOutput"@,
    }
}

impl AgentHandlers {
    /// The capability that the agent announces: keyboard only, display
    /// only, display with yes/no, keyboard with display, or no input and
    /// no output when it has no handler.
    pub fn capability(&self) -> (r: AgentCapability)
        ensures
            r == capability_of(*self),
    {
        let keyboard = self.request_passkey || self.request_pin_code;
        let display_only = self.display_passkey || self.display_pin_code;
        let yes_no = self.request_confirmation || self.request_authorization || self.authorize_service;
        match (keyboard, display_only, yes_no) {
            (true, false, false) => AgentCapability::KeyboardOnly,
            (false, true, false) => AgentCapability::DisplayOnly,
            (false, _, true) => AgentCapability::DisplayYesNo,
            (true, true, _) | (true, _, true) => AgentCapability::KeyboardDisplay,
            (false, false, false) => AgentCapability::NoInputNoOutput,
        }
    }
}

impl AgentCapability {
    /// The BlueZ name of the capability.
    pub fn as_str(&self) -> (r: &'static str)
        ensures
            r@ == capability_text(*self),
    {
        match self {
            AgentCapability::KeyboardDisplay => "KeyboardDisplay",
            AgentCapability::KeyboardOnly => "KeyboardOnly",
            AgentCapability::DisplayOnly => "DisplayOnly",
            AgentCapability::DisplayYesNo => "DisplayYesNo",
            AgentCapability::NoInputNoOutput => "NoInputNoOutput",
        }
    }
}

/// An agent without handlers announces that it has no input and no output;
/// an agent that announces so has no handler.
pub proof fn lemma_no_handlers_capability(h: AgentHandlers)
    ensures
        capability_of(h) == AgentCapability::NoInputNoOutput <==> !has_keyboard(h) && !has_display(h)
            && !has_yes_no(h),
{
}

/// A request that BlueZ makes of the agent.
#[derive(Clone, Copy, Debug, PartialEq, Eq, Structural)]
pub enum AgentRequest {
    /// `RequestPinCode`.
    RequestPinCode,
    /// `DisplayPinCode`.
    DisplayPinCode,
    /// `RequestPasskey`.
    RequestPasskey,
    /// `DisplayPasskey`.
    DisplayPasskey,
    /// `RequestConfirmation`.
    RequestConfirmation,
    /// `RequestAuthorization`.
    RequestAuthorization,
    /// `AuthorizeService`.
    AuthorizeService,
}

/// The name of the method of the agent interface that makes the request.
pub open spec fn request_method_name(r: AgentRequest) -> Seq<char> {
    match r {
        AgentRequest::RequestPinCode => "RequestPinCode"@,
        AgentRequest::DisplayPinCode => "DisplayPinCode"@,
        AgentRequest::RequestPasskey => "RequestPasskey"@,
        AgentRequest::DisplayPasskey => "DisplayPasskey"@,
        AgentRequest::RequestConfirmation => "RequestConfirmation"@,
        AgentRequest::RequestAuthorization => "RequestAuthorization"@,
        AgentRequest::AuthorizeService => "AuthorizeService"@,
    }
}

/// The request made by the method of the agent interface with the given
/// name, if it makes one (`Cancel` and `Release` make none).
pub open spec fn request_of_method(name: Seq<char>) -> Option<AgentRequest> {
    if name == "RequestPinCode"@ {
        Some(AgentRequest::RequestPinCode)
    } else if name == "DisplayPinCode"@ {
        Some(AgentRequest::DisplayPinCode)
    } else if name == "RequestPasskey"@ {
        Some(AgentRequest::RequestPasskey)
    } else if name == "DisplayPasskey"@ {
        Some(AgentRequest::DisplayPasskey)
    } else if name == "RequestConfirmation"@ {
        Some(AgentRequest::RequestConfirmation)
    } else if name == "RequestAuthorization"@ {
        Some(AgentRequest::RequestAuthorization)
    } else if name == "AuthorizeService"@ {
        Some(AgentRequest::AuthorizeService)
    } else {
        None
    }
}

impl AgentRequest {
    /// The name of the method that makes the request.
    pub fn method_name(&self) -> (r: &'static str)
        ensures
            r@ == request_method_name(*self),
    {
        match self {
            AgentRequest::RequestPinCode => "RequestPinCode",
            AgentRequest::DisplayPinCode => "DisplayPinCode",
            AgentRequest::RequestPasskey => "RequestPasskey",
            AgentRequest::DisplayPasskey => "DisplayPasskey",
            AgentRequest::RequestConfirmation => "RequestConfirmation",
            AgentRequest::RequestAuthorization => "RequestAuthorization",
            AgentRequest::AuthorizeService => "AuthorizeService",
        }
    }

    /// The request made by the method with the given name, if any.
    pub fn from_method_name(name: &str) -> (r: Option<AgentRequest>)
        ensures
            r == request_of_method(name@),
    {
        if str_eq(name, "RequestPinCode") {
            Some(AgentRequest::RequestPinCode)
        } else if str_eq(name, "DisplayPinCode") {
            Some(AgentRequest::DisplayPinCode)
        } else if str_eq(name, "RequestPasskey") {
            Some(AgentRequest::RequestPasskey)
        } else if str_eq(name, "DisplayPasskey") {
            Some(AgentRequest::DisplayPasskey)
        } else if str_eq(name, "RequestConfirmation") {
            Some(AgentRequest::RequestConfirmation)
        } else if str_eq(name, "RequestAuthorization") {
            Some(AgentRequest::RequestAuthorization)
        } else if str_eq(name, "AuthorizeService") {
            Some(AgentRequest::AuthorizeService)
        } else {
            None
        }
    }
}

/// Each request is dispatched from the method that makes it: the method
/// name of a request leads back to the request.
pub proof fn lemma_method_names_roundtrip(r: AgentRequest)
    ensures
        request_of_method(request_method_name(r)) == Some(r),
{
    reveal_strlit("RequestPinCode");
    reveal_strlit("DisplayPinCode");
    reveal_strlit("RequestPasskey");
    reveal_strlit("DisplayPasskey");
    reveal_strlit("RequestConfirmation");
    reveal_strlit("RequestAuthorization");
    reveal_strlit("AuthorizeService");
    let rp = "RequestPinCode"@;
    let dp = "DisplayPinCode"@;
    let rk = "RequestPasskey"@;
    let dk = "DisplayPasskey"@;
    assert(rp[0] == 'R' && rk[0] == 'R' && dp[0] == 'D' && dk[0] == 'D');
    assert(rp[8] == 'i' && dp[8] == 'i' && rk[8] == 'a' && dk[8] == 'a');
    assert(rp != dp && rp != rk && rp != dk && dp != rk && dp != dk && rk != dk);
    assert("RequestConfirmation"@.len() == 19 && "RequestAuthorization"@.len() == 20);
    assert("AuthorizeService"@.len() == 16 && rp.len() == 14 && dk.len() == 14);
    assert(rk.len() == 14 && dp.len() == 14);
}

/// The agent has a handler for the request.
pub open spec fn handles(h: AgentHandlers, r: AgentRequest) -> bool {
    match r {
        AgentRequest::RequestPinCode => h.request_pin_code,
        AgentRequest::DisplayPinCode => h.display_pin_code,
        AgentRequest::RequestPasskey => h.request_passkey,
        AgentRequest::DisplayPasskey => h.display_passkey,
        AgentRequest::RequestConfirmation => h.request_confirmation,
        AgentRequest::RequestAuthorization => h.request_authorization,
        AgentRequest::AuthorizeService => h.authorize_service,
    }
}

/// The handler of the request is stopped by a `Cancel` of the daemon
/// (every request but the two display requests).
pub open spec fn cancelable(r: AgentRequest) -> bool {
    !(r == AgentRequest::DisplayPinCode || r == AgentRequest::DisplayPasskey)
}

/// The daemon's `Cancel` stops the handlers of the requests that wait for
/// the user (pin code, passkey, confirmation, authorization and service
/// authorization), and not those that only display a code.
pub proof fn lemma_cancelable_requests(r: AgentRequest)
    ensures
        (r == AgentRequest::RequestPinCode || r == AgentRequest::RequestPasskey || r
            == AgentRequest::RequestConfirmation || r == AgentRequest::RequestAuthorization || r
            == AgentRequest::AuthorizeService) ==> cancelable(r),
        (r == AgentRequest::DisplayPinCode || r == AgentRequest::DisplayPasskey) ==> !cancelable(r),
{
}

/// The agent has no handler at all: it is a `NoInputNoOutput` agent that
/// accepts the requests.
pub open spec fn no_handlers(h: AgentHandlers) -> bool {
    !has_keyboard(h) && !has_display(h) && !has_yes_no(h)
}

/// The request is answered with an empty reply when it succeeds (every
/// request but the two that ask for a pin code or passkey).
pub open spec fn returns_nothing(r: AgentRequest) -> bool {
    !(r == AgentRequest::RequestPinCode || r == AgentRequest::RequestPasskey)
}

/// What the agent does with a request.
#[derive(Clone, Debug)]
pub enum AgentAction {
    /// Answer with an error.
    Reply(ReqError),
    /// Answer with success (an empty reply).
    Accept,
    /// Call the handler with the adapter name and device address of the
    /// requesting device (and the service UUID of an `AuthorizeService`);
    /// a cancelable call ends with `Canceled` when the daemon cancels it.
    Call {
        /// Adapter name.
        adapter: String,
        /// Device address.
        device: Address,
        /// Service UUID of an `AuthorizeService`.
        service: Option<u128>,
        /// The call ends on a `Cancel` of the daemon.
        cancelable: bool,
    },
}

/// How the agent answers a request about the device at `device_path`
/// (with the service UUID text of an `AuthorizeService`): a device path
/// that names no device, or a service UUID that does not parse, is
/// rejected.  Otherwise an agent without any handler accepts every request
/// that needs no answer value (and rejects the pin code and passkey
/// requests, for which it has no value); an agent with some handlers
/// calls the handler of the request and rejects a request whose handler
/// is missing.
pub fn agent_action(h: AgentHandlers, req: AgentRequest, device_path: &str, uuid: &str) -> (r: AgentAction)
    ensures
        device_path_parse(device_path@) is None ==> r == AgentAction::Reply(ReqError::Rejected),
        (req == AgentRequest::AuthorizeService && uuid_parsed(uuid@) is None) ==> r == AgentAction::Reply(
            ReqError::Rejected,
        ),
        ({
            let valid = device_path_parse(device_path@) is Some && (req == AgentRequest::AuthorizeService
                ==> uuid_parsed(uuid@) is Some);
            &&& (valid && no_handlers(h) && returns_nothing(req)) ==> r is Accept
            &&& (valid && no_handlers(h) && !returns_nothing(req)) ==> r == AgentAction::Reply(ReqError::Rejected)
            &&& (valid && !no_handlers(h) && !handles(h, req)) ==> r == AgentAction::Reply(ReqError::Rejected)
            &&& (valid && handles(h, req)) ==> r is Call
            &&& (valid && handles(h, req) && (req == AgentRequest::RequestPinCode || req == AgentRequest::RequestPasskey
                || req == AgentRequest::RequestConfirmation || req == AgentRequest::RequestAuthorization || req
                == AgentRequest::AuthorizeService)) ==> (r matches AgentAction::Call { cancelable: true, .. })
            &&& (valid && handles(h, req) && (req == AgentRequest::DisplayPinCode || req
                == AgentRequest::DisplayPasskey)) ==> (r matches AgentAction::Call { cancelable: false, .. })
        }),
        r matches AgentAction::Call { adapter, device, service, cancelable: c } ==> (device_path_parse(device_path@)
            == Some((adapter@, device@)) && handles(h, req) && c == cancelable(req) && (if req
            == AgentRequest::AuthorizeService {
            service == uuid_parsed(uuid@) && service is Some
        } else {
            service is None
        })),
{
    let (adapter, device) = match parse_device_dbus_path(device_path) {
        Some(x) => x,
        None => return AgentAction::Reply(ReqError::Rejected),
    };
    let service = match req {
        AgentRequest::AuthorizeService => match parse_uuid(uuid) {
            Ok(u) => Some(u),
            Err(_) => return AgentAction::Reply(ReqError::Rejected),
        },
        _ => None,
    };
    let any_handler = h.request_pin_code || h.display_pin_code || h.request_passkey || h.display_passkey
        || h.request_confirmation || h.request_authorization || h.authorize_service;
    if !any_handler {
        return match req {
            AgentRequest::RequestPinCode | AgentRequest::RequestPasskey => AgentAction::Reply(ReqError::Rejected),
            _ => AgentAction::Accept,
        };
    }
    let present = match req {
        AgentRequest::RequestPinCode => h.request_pin_code,
        AgentRequest::DisplayPinCode => h.display_pin_code,
        AgentRequest::RequestPasskey => h.request_passkey,
        AgentRequest::DisplayPasskey => h.display_passkey,
        AgentRequest::RequestConfirmation => h.request_confirmation,
        AgentRequest::RequestAuthorization => h.request_authorization,
        AgentRequest::AuthorizeService => h.authorize_service,
    };
    if !present {
        return AgentAction::Reply(ReqError::Rejected);
    }
    let cancelable = match req {
        AgentRequest::DisplayPinCode | AgentRequest::DisplayPasskey => false,
        _ => true,
    };
    AgentAction::Call { adapter, device, service, cancelable }
}

/// The outcome of a cancelable handler call: `Canceled` when the daemon
/// canceled it first, the handler's result otherwise.
pub fn call_outcome<R>(canceled_first: bool, result: Result<R, ReqError>) -> (r: Result<R, ReqError>)
    ensures
        canceled_first ==> r == Err::<R, ReqError>(ReqError::Canceled),
        !canceled_first ==> r == result,
{
    if canceled_first {
        Err(ReqError::Canceled)
    } else {
        result
    }
}

} // verus!
