//! Requests that remote devices make of local GATT services: reading them
//! out of the option dictionary that BlueZ passes, and the errors that a
//! service answers with.
use vstd::prelude::*;
use crate::{Address, Error, ErrorKind};
use crate::device::{device_path_parse, parse_device_dbus_path};
use crate::dict::{
    opt_bool_field, opt_str_field, opt_u16_field, read_opt_bool, read_opt_str, read_opt_u16, read_req_bool,
    read_req_path, read_req_u16, req_bool_field, req_path_field, req_u16_field, Dict, InvalidArgs, PropValue,
};
use crate::gatt::{write_op_text, WriteOp};
use crate::text::{owned, str_eq, texts, uuid_string, uuid_text, uuid_texts};

verus! {

/// Link type.
#[derive(Clone, Copy, Debug, PartialEq, Eq, Structural)]
pub enum LinkType {
    /// BR/EDR
    BrEdr,
    /// LE
    Le,
}

/// Text of a link type.
pub open spec fn link_type_text(l: LinkType) -> Seq<char> {
    match l {
        LinkType::BrEdr => "BR/EDR"@,
        LinkType::Le => "LE"@,
    }
}

/// The link type with the given text, if any.
pub open spec fn link_type_parse(s: Seq<char>) -> Option<LinkType> {
    if s == "BR/EDR"@ {
        Some(LinkType::BrEdr)
    } else if s == "LE"@ {
        Some(LinkType::Le)
    } else {
        None
    }
}

impl LinkType {
    /// The text of the link type (its `Display` form).
    pub fn to_string(&self) -> (r: String)
        ensures
            r@ == link_type_text(*self),
    {
        match self {
            LinkType::BrEdr => owned("BR/EDR"),
            LinkType::Le => owned("LE"),
        }
    }

    /// The link type with the given text (its `FromStr` form).
    pub fn from_str(s: &str) -> (r: Option<LinkType>)
        ensures
            r == link_type_parse(s@),
    {
        if str_eq(s, "BR/EDR") {
            Some(LinkType::BrEdr)
        } else if str_eq(s, "LE") {
            Some(LinkType::Le)
        } else {
            None
        }
    }
}

/// Error response from us to a Bluetooth request.
#[derive(Clone, Copy, Debug, PartialEq, Eq, Structural)]
pub enum ReqError {
    /// Bluetooth request failed
    Failed,
    /// Bluetooth request already in progress
    InProgress,
    /// Invalid offset for Bluetooth GATT property
    InvalidOffset,
    /// Invalid value length for Bluetooth GATT property
    InvalidValueLength,
    /// Bluetooth request not permitted
    NotPermitted,
    /// Bluetooth request not authorized
    NotAuthorized,
    /// Bluetooth request not supported
    NotSupported,
}

/// Name of a request error (its variant name).
pub open spec fn req_error_name(e: ReqError) -> Seq<char> {
    match e {
        ReqError::Failed => "Failed"@,
        ReqError::InProgress => "InProgress"@,
        ReqError::InvalidOffset => "InvalidOffset"@,
        ReqError::InvalidValueLength => "InvalidValueLength"@,
        ReqError::NotPermitted => "NotPermitted"@,
        ReqError::NotAuthorized => "NotAuthorized"@,
        ReqError::NotSupported => "NotSupported"@,
    }
}

impl ReqError {
    /// The default error: `Failed`.
    pub fn default() -> (r: ReqError)
        ensures
            r == ReqError::Failed,
    {
        ReqError::Failed
    }

    /// The variant name.
    pub fn name(&self) -> (r: &'static str)
        ensures
            r@ == req_error_name(*self),
    {
        match self {
            ReqError::Failed => "Failed",
            ReqError::InProgress => "InProgress",
            ReqError::InvalidOffset => "InvalidOffset",
            ReqError::InvalidValueLength => "InvalidValueLength",
            ReqError::NotPermitted => "NotPermitted",
            ReqError::NotAuthorized => "NotAuthorized",
            ReqError::NotSupported => "NotSupported",
        }
    }

    /// The message of the error (its `Display` form).
    pub fn to_string(&self) -> (r: String)
        ensures
            *self == ReqError::Failed ==> r@ == "Bluetooth request failed"@,
            *self == ReqError::InProgress ==> r@ == "Bluetooth request already in progress"@,
            *self == ReqError::InvalidOffset ==> r@ == "Invalid offset for Bluetooth GATT property"@,
            *self == ReqError::InvalidValueLength ==> r@ == "Invalid value length for Bluetooth GATT property"@,
            *self == ReqError::NotPermitted ==> r@ == "Bluetooth request not permitted"@,
            *self == ReqError::NotAuthorized ==> r@ == "Bluetooth request not authorized"@,
            *self == ReqError::NotSupported ==> r@ == "Bluetooth request not supported"@,
    {
        match self {
            ReqError::Failed => owned("Bluetooth request failed"),
            ReqError::InProgress => owned("Bluetooth request already in progress"),
            ReqError::InvalidOffset => owned("Invalid offset for Bluetooth GATT property"),
            ReqError::InvalidValueLength => owned("Invalid value length for Bluetooth GATT property"),
            ReqError::NotPermitted => owned("Bluetooth request not permitted"),
            ReqError::NotAuthorized => owned("Bluetooth request not authorized"),
            ReqError::NotSupported => owned("Bluetooth request not supported"),
        }
    }

    /// The D-Bus error name that answers the request:
    /// `org.bluez.Error.` and the variant name.
    pub fn dbus_error_name(&self) -> (r: String)
        ensures
            r@ == "org.bluez.Error."@ + req_error_name(*self),
    {
        let mut r = owned("org.bluez.Error.");
        r.append(self.name());
        r
    }
}

/// The `device` option: the adapter name and address of the requesting
/// device.
pub open spec fn device_field(d: Dict) -> Result<(Seq<char>, Seq<u8>), Seq<char>> {
    match req_path_field(d.get_spec("device"@), "device missing"@, "device invalid"@) {
        Err(e) => Err(e),
        Ok(p) => match device_path_parse(p) {
            Some(x) => Ok(x),
            None => Err("device path invalid"@),
        },
    }
}

/// The `link` option: a link type when it names one.
pub open spec fn link_field(d: Dict) -> Result<Option<LinkType>, Seq<char>> {
    match opt_str_field(d.get_spec("link"@), "link invalid"@) {
        Err(e) => Err(e),
        Ok(None) => Ok(None),
        Ok(Some(s)) => Ok(link_type_parse(s)),
    }
}

/// The `type` option: a write operation type, `Request` when absent.
pub open spec fn write_op_field(d: Dict) -> Result<WriteOp, Seq<char>> {
    match opt_str_field(d.get_spec("type"@), "type invalid"@) {
        Err(e) => Err(e),
        Ok(None) => Ok(WriteOp::Request),
        Ok(Some(s)) => if s == write_op_text(WriteOp::Command) {
            Ok(WriteOp::Command)
        } else if s == write_op_text(WriteOp::Request) {
            Ok(WriteOp::Request)
        } else if s == write_op_text(WriteOp::Reliable) {
            Ok(WriteOp::Reliable)
        } else {
            Err("type invalid"@)
        },
    }
}

/// The `offset` option, 0 when absent.
pub open spec fn offset_field(d: Dict) -> Result<u16, Seq<char>> {
    opt_u16_field(d.get_spec("offset"@), "offset invalid"@)
}

/// The required `mtu` option.
pub open spec fn mtu_field(d: Dict) -> Result<u16, Seq<char>> {
    req_u16_field(d.get_spec("mtu"@), "mtu missing"@, "mtu invalid"@)
}

/// Reads the `device` option.
fn parse_device(d: &Dict) -> (r: Result<(String, Address), InvalidArgs>)
    ensures
        r matches Ok((n, a)) ==> device_field(*d) == Ok::<(Seq<char>, Seq<u8>), Seq<char>>((n@, a@)),
        r matches Err(e) ==> device_field(*d) == Err::<(Seq<char>, Seq<u8>), Seq<char>>(e.0@),
{
    let path = read_req_path(d, "device", "device missing", "device invalid")?;
    match parse_device_dbus_path(path) {
        Some(x) => Ok(x),
        None => Err(InvalidArgs(owned("device path invalid"))),
    }
}

/// Reads the `link` option.
fn read_link(d: &Dict) -> (r: Result<Option<LinkType>, InvalidArgs>)
    ensures
        r matches Ok(l) ==> link_field(*d) == Ok::<Option<LinkType>, Seq<char>>(l),
        r matches Err(e) ==> link_field(*d) == Err::<Option<LinkType>, Seq<char>>(e.0@),
{
    match read_opt_str(d, "link", "link invalid")? {
        None => Ok(None),
        Some(s) => Ok(LinkType::from_str(s)),
    }
}

/// Reads the `type` option.
fn read_write_op(d: &Dict) -> (r: Result<WriteOp, InvalidArgs>)
    ensures
        r matches Ok(op) ==> write_op_field(*d) == Ok::<WriteOp, Seq<char>>(op),
        r matches Err(e) ==> write_op_field(*d) == Err::<WriteOp, Seq<char>>(e.0@),
{
    match read_opt_str(d, "type", "type invalid")? {
        None => Ok(WriteOp::Request),
        Some(s) => match WriteOp::from_str(s) {
            Some(op) => {
                proof {
                    crate::gatt::lemma_write_op_text_injective(op, op);
                    match op {
                        WriteOp::Command => {},
                        WriteOp::Request => {
                            if s@ == write_op_text(WriteOp::Command) {
                                crate::gatt::lemma_write_op_text_injective(op, WriteOp::Command);
                            }
                        },
                        WriteOp::Reliable => {
                            if s@ == write_op_text(WriteOp::Command) {
                                crate::gatt::lemma_write_op_text_injective(op, WriteOp::Command);
                            }
                            if s@ == write_op_text(WriteOp::Request) {
                                crate::gatt::lemma_write_op_text_injective(op, WriteOp::Request);
                            }
                        },
                    }
                }
                Ok(op)
            },
            None => Err(InvalidArgs(owned("type invalid"))),
        },
    }
}

/// Read value request.
#[derive(Clone, Debug)]
pub struct CharacteristicReadRequest {
    /// Name of adapter making this request.
    pub adapter_name: String,
    /// Address of device making this request.
    pub device_address: Address,
    /// Offset.
    pub offset: u16,
    /// Exchanged MTU.
    pub mtu: u16,
    /// Link type.
    pub link: Option<LinkType>,
}

/// The fields of a read request in a dictionary, or the error message.
pub open spec fn char_read_request_parse(d: Dict) -> Result<(Seq<char>, Seq<u8>, u16, u16, Option<LinkType>), Seq<char>> {
    match device_field(d) {
        Err(e) => Err(e),
        Ok((a, addr)) => match offset_field(d) {
            Err(e) => Err(e),
            Ok(offset) => match mtu_field(d) {
                Err(e) => Err(e),
                Ok(mtu) => match link_field(d) {
                    Err(e) => Err(e),
                    Ok(link) => Ok((a, addr, offset, mtu, link)),
                },
            },
        },
    }
}

impl View for CharacteristicReadRequest {
    type V = (Seq<char>, Seq<u8>, u16, u16, Option<LinkType>);

    open spec fn view(&self) -> Self::V {
        (self.adapter_name@, self.device_address@, self.offset, self.mtu, self.link)
    }
}

impl CharacteristicReadRequest {
    /// Reads the request from its options: `device` (required), `offset`
    /// (0 when absent), `mtu` (required), `link`.
    pub fn from_dict(d: &Dict) -> (r: Result<Self, InvalidArgs>)
        ensures
            r matches Ok(q) ==> char_read_request_parse(*d) == Ok::<_, Seq<char>>(q@),
            r matches Err(e) ==> char_read_request_parse(*d) == Err::<(Seq<char>, Seq<u8>, u16, u16, Option<LinkType>), Seq<char>>(e.0@),
    {
        let (adapter_name, device_address) = parse_device(d)?;
        let offset = read_opt_u16(d, "offset", "offset invalid")?;
        let mtu = read_req_u16(d, "mtu", "mtu missing", "mtu invalid")?;
        let link = read_link(d)?;
        Ok(Self { adapter_name, device_address, offset, mtu, link })
    }
}

/// Write value request.
#[derive(Clone, Debug)]
pub struct CharacteristicWriteRequest {
    /// Name of adapter making this request.
    pub adapter_name: String,
    /// Address of device making this request.
    pub device_address: Address,
    /// Start offset.
    pub offset: u16,
    /// Write operation type.
    pub op_type: WriteOp,
    /// Exchanged MTU.
    pub mtu: u16,
    /// Link type.
    pub link: Option<LinkType>,
    /// True if prepare authorization request.
    pub prepare_authorize: bool,
}

/// View of a write request.
pub type WriteRequestView = (Seq<char>, Seq<u8>, u16, WriteOp, u16, Option<LinkType>, bool);

/// The fields of a write request in a dictionary, or the error message.
pub open spec fn char_write_request_parse(d: Dict) -> Result<WriteRequestView, Seq<char>> {
    match device_field(d) {
        Err(e) => Err(e),
        Ok((a, addr)) => match offset_field(d) {
            Err(e) => Err(e),
            Ok(offset) => match write_op_field(d) {
                Err(e) => Err(e),
                Ok(op) => match mtu_field(d) {
                    Err(e) => Err(e),
                    Ok(mtu) => match link_field(d) {
                        Err(e) => Err(e),
                        Ok(link) => match opt_bool_field(d.get_spec("prepare-authorize"@), "prepare-authorize invalid"@) {
                            Err(e) => Err(e),
                            Ok(pa) => Ok((a, addr, offset, op, mtu, link, pa)),
                        },
                    },
                },
            },
        },
    }
}

impl View for CharacteristicWriteRequest {
    type V = WriteRequestView;

    open spec fn view(&self) -> Self::V {
        (self.adapter_name@, self.device_address@, self.offset, self.op_type, self.mtu, self.link, self.prepare_authorize)
    }
}

impl CharacteristicWriteRequest {
    /// Reads the request from its options: `device` (required), `offset`
    /// (0 when absent), `type` (`request` when absent), `mtu` (required),
    /// `link`, `prepare-authorize` (false when absent).
    pub fn from_dict(d: &Dict) -> (r: Result<Self, InvalidArgs>)
        ensures
            r matches Ok(q) ==> char_write_request_parse(*d) == Ok::<_, Seq<char>>(q@),
            r matches Err(e) ==> char_write_request_parse(*d) == Err::<WriteRequestView, Seq<char>>(e.0@),
    {
        let (adapter_name, device_address) = parse_device(d)?;
        let offset = read_opt_u16(d, "offset", "offset invalid")?;
        let op_type = read_write_op(d)?;
        let mtu = read_req_u16(d, "mtu", "mtu missing", "mtu invalid")?;
        let link = read_link(d)?;
        let prepare_authorize = read_opt_bool(d, "prepare-authorize", "prepare-authorize invalid")?;
        Ok(Self { adapter_name, device_address, offset, op_type, mtu, link, prepare_authorize })
    }
}

/// Characteristic acquire write or notify request.
#[derive(Clone, Debug)]
pub struct CharacteristicAcquireRequest {
    /// Name of adapter making this request.
    pub adapter_name: String,
    /// Address of device making this request.
    pub device_address: Address,
    /// Exchanged MTU.
    pub mtu: u16,
    /// Link type.
    pub link: Option<LinkType>,
}

/// The fields of an acquire request in a dictionary, or the error message.
pub open spec fn char_acquire_request_parse(d: Dict) -> Result<(Seq<char>, Seq<u8>, u16, Option<LinkType>), Seq<char>> {
    match device_field(d) {
        Err(e) => Err(e),
        Ok((a, addr)) => match mtu_field(d) {
            Err(e) => Err(e),
            Ok(mtu) => match link_field(d) {
                Err(e) => Err(e),
                Ok(link) => Ok((a, addr, mtu, link)),
            },
        },
    }
}

impl View for CharacteristicAcquireRequest {
    type V = (Seq<char>, Seq<u8>, u16, Option<LinkType>);

    open spec fn view(&self) -> Self::V {
        (self.adapter_name@, self.device_address@, self.mtu, self.link)
    }
}

impl CharacteristicAcquireRequest {
    /// Reads the request from its options: `device` (required), `mtu`
    /// (required), `link`.
    pub fn from_dict(d: &Dict) -> (r: Result<Self, InvalidArgs>)
        ensures
            r matches Ok(q) ==> char_acquire_request_parse(*d) == Ok::<_, Seq<char>>(q@),
            r matches Err(e) ==> char_acquire_request_parse(*d) == Err::<(Seq<char>, Seq<u8>, u16, Option<LinkType>), Seq<char>>(e.0@),
    {
        let (adapter_name, device_address) = parse_device(d)?;
        let mtu = read_req_u16(d, "mtu", "mtu missing", "mtu invalid")?;
        let link = read_link(d)?;
        Ok(Self { adapter_name, device_address, mtu, link })
    }
}

/// Read characteristic descriptor value request.
#[derive(Clone, Debug)]
pub struct DescriptorReadRequest {
    /// Name of adapter making this request.
    pub adapter_name: String,
    /// Address of device making this request.
    pub device_address: Address,
    /// Offset.
    pub offset: u16,
    /// Link type.
    pub link: Option<LinkType>,
}

/// The fields of a descriptor read request in a dictionary, or the error
/// message.
pub open spec fn desc_read_request_parse(d: Dict) -> Result<(Seq<char>, Seq<u8>, u16, Option<LinkType>), Seq<char>> {
    match device_field(d) {
        Err(e) => Err(e),
        Ok((a, addr)) => match offset_field(d) {
            Err(e) => Err(e),
            Ok(offset) => match link_field(d) {
                Err(e) => Err(e),
                Ok(link) => Ok((a, addr, offset, link)),
            },
        },
    }
}

impl View for DescriptorReadRequest {
    type V = (Seq<char>, Seq<u8>, u16, Option<LinkType>);

    open spec fn view(&self) -> Self::V {
        (self.adapter_name@, self.device_address@, self.offset, self.link)
    }
}

impl DescriptorReadRequest {
    /// Reads the request from its options: `device` (required), `offset`
    /// (0 when absent), `link`.
    pub fn from_dict(d: &Dict) -> (r: Result<Self, InvalidArgs>)
        ensures
            r matches Ok(q) ==> desc_read_request_parse(*d) == Ok::<_, Seq<char>>(q@),
            r matches Err(e) ==> desc_read_request_parse(*d) == Err::<(Seq<char>, Seq<u8>, u16, Option<LinkType>), Seq<char>>(e.0@),
    {
        let (adapter_name, device_address) = parse_device(d)?;
        let offset = read_opt_u16(d, "offset", "offset invalid")?;
        let link = read_link(d)?;
        Ok(Self { adapter_name, device_address, offset, link })
    }
}

/// Write characteristic descriptor value request.
#[derive(Clone, Debug)]
pub struct DescriptorWriteRequest {
    /// Name of adapter making this request.
    pub adapter_name: String,
    /// Address of device making this request.
    pub device_address: Address,
    /// Offset.
    pub offset: u16,
    /// Link type.
    pub link: Option<LinkType>,
    /// Is prepare authorization request?
    pub prepare_authorize: bool,
}

/// The fields of a descriptor write request in a dictionary, or the error
/// message; `prepare-authorize` is required here.
pub open spec fn desc_write_request_parse(d: Dict) -> Result<(Seq<char>, Seq<u8>, u16, Option<LinkType>, bool), Seq<char>> {
    match device_field(d) {
        Err(e) => Err(e),
        Ok((a, addr)) => match offset_field(d) {
            Err(e) => Err(e),
            Ok(offset) => match link_field(d) {
                Err(e) => Err(e),
                Ok(link) => match req_bool_field(
                    d.get_spec("prepare-authorize"@),
                    "prepare-authorize missing"@,
                    "prepare-authorize invalid"@,
                ) {
                    Err(e) => Err(e),
                    Ok(pa) => Ok((a, addr, offset, link, pa)),
                },
            },
        },
    }
}

impl View for DescriptorWriteRequest {
    type V = (Seq<char>, Seq<u8>, u16, Option<LinkType>, bool);

    open spec fn view(&self) -> Self::V {
        (self.adapter_name@, self.device_address@, self.offset, self.link, self.prepare_authorize)
    }
}

impl DescriptorWriteRequest {
    /// Reads the request from its options: `device` (required), `offset`
    /// (0 when absent), `link`, `prepare-authorize` (required).
    pub fn from_dict(d: &Dict) -> (r: Result<Self, InvalidArgs>)
        ensures
            r matches Ok(q) ==> desc_write_request_parse(*d) == Ok::<_, Seq<char>>(q@),
            r matches Err(e) ==> desc_write_request_parse(*d) == Err::<(Seq<char>, Seq<u8>, u16, Option<LinkType>, bool), Seq<char>>(e.0@),
    {
        let (adapter_name, device_address) = parse_device(d)?;
        let offset = read_opt_u16(d, "offset", "offset invalid")?;
        let link = read_link(d)?;
        let prepare_authorize = read_req_bool(d, "prepare-authorize", "prepare-authorize missing", "prepare-authorize invalid")?;
        Ok(Self { adapter_name, device_address, offset, link, prepare_authorize })
    }
}

/// A write request that a client sends (the options of a remote write
/// request, with the `device` and `mtu` options that BlueZ adds) reaches
/// the local service with the same offset, operation type and
/// prepare-authorize flag.
pub proof fn lemma_write_request_delivered(
    w: crate::gatt::remote::CharacteristicWriteRequest,
    d: Dict,
    mtu: u16,
)
    requires
        d.get_spec("offset"@) == Some(PropValue::U16(w.offset)),
        d.get_spec("type"@) matches Some(PropValue::Str(t)) && t@ == write_op_text(w.op_type),
        d.get_spec("prepare-authorize"@) == Some(PropValue::Bool(w.prepare_authorize)),
        d.get_spec("mtu"@) == Some(PropValue::U16(mtu)),
        d.get_spec("device"@) matches Some(PropValue::ObjectPath(p)) && device_path_parse(p@) is Some,
        d.get_spec("link"@) is None,
    ensures
        char_write_request_parse(d) matches Ok(v) && v.2 == w.offset && v.3 == w.op_type && v.4 == mtu
            && v.6 == w.prepare_authorize,
{
    match w.op_type {
        WriteOp::Command => {},
        WriteOp::Request => {
            if write_op_text(WriteOp::Request) == write_op_text(WriteOp::Command) {
                crate::gatt::lemma_write_op_text_injective(WriteOp::Request, WriteOp::Command);
            }
        },
        WriteOp::Reliable => {
            if write_op_text(WriteOp::Reliable) == write_op_text(WriteOp::Command) {
                crate::gatt::lemma_write_op_text_injective(WriteOp::Reliable, WriteOp::Command);
            }
            if write_op_text(WriteOp::Reliable) == write_op_text(WriteOp::Request) {
                crate::gatt::lemma_write_op_text_injective(WriteOp::Reliable, WriteOp::Request);
            }
        },
    }
}

} // verus!

verus! {

/// Root object path of a local GATT application: its prefix and its id
/// without hyphens.
pub open spec fn gatt_app_root(app_id: u128) -> Seq<char> {
    "/org/bluez/gatt/app/"@ + crate::text::uuid_simple_text(app_id)
}

/// Root object path of a local GATT application.
pub fn gatt_app_path(app_id: u128) -> (r: String)
    ensures
        r@ == gatt_app_root(app_id),
        crate::foreign::is_object_path(r@),
{
    let mut p = owned("/org/bluez/gatt/app/");
    let id = crate::text::uuid_simple_string(app_id);
    p.append(id.as_str());
    proof {
        reveal_strlit("/org/bluez/gatt/app/");
        reveal_strlit("/org/bluez/gatt/app");
        reveal_strlit("/");
        assert("/org/bluez/gatt/app/"@ =~= "/org/bluez/gatt/app"@ + "/"@);
        assert(crate::object_path::plain_from("/org/bluez/gatt/app"@, 0)) by {
            reveal_with_fuel(crate::object_path::plain_from, 30);
        }
        crate::object_path::lemma_prefix_valid("/org/bluez/gatt/app"@);
        crate::object_path::lemma_uuid_simple_element(app_id);
        crate::object_path::lemma_object_path_child("/org/bluez/gatt/app"@, crate::text::uuid_simple_text(app_id));
    }
    p
}

/// The kind of a published GATT object.
#[derive(Clone, Copy, Debug, PartialEq, Eq, Structural)]
pub enum GattObjectKind {
    /// A service.
    Service,
    /// A characteristic.
    Characteristic,
    /// A descriptor.
    Descriptor,
}

/// The path of a child object: the parent, the tag and the index in
/// decimal.
pub open spec fn child_path(parent: Seq<char>, tag: Seq<char>, index: nat) -> Seq<char> {
    parent + tag + crate::text::dec_string(index)
}

/// The descriptors `0..n` of a characteristic, in order.
pub open spec fn descriptors_layout(char_path: Seq<char>, n: nat) -> Seq<(GattObjectKind, Seq<char>)>
    decreases n,
{
    if n == 0 {
        Seq::empty()
    } else {
        descriptors_layout(char_path, (n - 1) as nat).push(
            (GattObjectKind::Descriptor, child_path(char_path, "/desc"@, (n - 1) as nat)),
        )
    }
}

/// The characteristics of a service (each given by its number of
/// descriptors), each followed by its descriptors, in order.
pub open spec fn characteristics_layout(service_path: Seq<char>, descs: Seq<usize>) -> Seq<(GattObjectKind, Seq<char>)>
    decreases descs.len(),
{
    if descs.len() == 0 {
        Seq::empty()
    } else {
        let j = (descs.len() - 1) as nat;
        let cp = child_path(service_path, "/char"@, j);
        characteristics_layout(service_path, descs.drop_last()) + seq![(GattObjectKind::Characteristic, cp)]
            + descriptors_layout(cp, descs.last() as nat)
    }
}

/// The objects of an application, in the order they are published: each
/// service followed by its characteristics and their descriptors.
pub open spec fn application_layout(root: Seq<char>, shape: Seq<Seq<usize>>) -> Seq<(GattObjectKind, Seq<char>)>
    decreases shape.len(),
{
    if shape.len() == 0 {
        Seq::empty()
    } else {
        let i = (shape.len() - 1) as nat;
        let sp = child_path(root, "/service"@, i);
        application_layout(root, shape.drop_last()) + seq![(GattObjectKind::Service, sp)] + characteristics_layout(
            sp,
            shape.last(),
        )
    }
}

/// The kinds and paths of a list of published objects.
pub open spec fn objects_view(v: Seq<(GattObjectKind, String)>) -> Seq<(GattObjectKind, Seq<char>)> {
    v.map_values(|o: (GattObjectKind, String)| (o.0, o.1@))
}

/// The path of a child object.
fn make_child_path(parent: &str, tag: &str, index: usize) -> (r: String)
    ensures
        r@ == child_path(parent@, tag@, index as nat),
{
    let mut p = owned(parent);
    p.append(tag);
    crate::text::push_dec(&mut p, index as u64);
    p
}

/// The objects that registering a GATT application publishes, in order:
/// the services below `root` as `service<i>`, the characteristics below
/// their service as `char<j>`, the descriptors below their characteristic
/// as `desc<k>`; `shape[i][j]` is the number of descriptors of
/// characteristic `j` of service `i`.
pub fn application_objects(root: &str, shape: &Vec<Vec<usize>>) -> (r: Vec<(GattObjectKind, String)>)
    ensures
        objects_view(r@) == application_layout(root@, shape@.map_values(|v: Vec<usize>| v@)),
{
    let ghost sh = shape@.map_values(|v: Vec<usize>| v@);
    let mut out: Vec<(GattObjectKind, String)> = Vec::new();
    let mut i: usize = 0;
    while i < shape.len()
        invariant
            i <= shape@.len(),
            sh == shape@.map_values(|v: Vec<usize>| v@),
            objects_view(out@) == application_layout(root@, sh.take(i as int)),
        decreases shape@.len() - i,
    {
        let sp = make_child_path(root, "/service", i);
        let ghost before = objects_view(out@);
        out.push((GattObjectKind::Service, owned(sp.as_str())));
        assert(objects_view(out@) =~= before.push((GattObjectKind::Service, sp@)));
        let row = &shape[i];
        let mut j: usize = 0;
        while j < row.len()
            invariant
                j <= row@.len(),
                objects_view(out@) == application_layout(root@, sh.take(i as int)) + seq![(GattObjectKind::Service, sp@)]
                    + characteristics_layout(sp@, row@.take(j as int)),
            decreases row@.len() - j,
        {
            let cp = make_child_path(sp.as_str(), "/char", j);
            let ghost before_c = objects_view(out@);
            out.push((GattObjectKind::Characteristic, owned(cp.as_str())));
            assert(objects_view(out@) =~= before_c.push((GattObjectKind::Characteristic, cp@)));
            let n = row[j];
            let mut k: usize = 0;
            while k < n
                invariant
                    k <= n,
                    objects_view(out@) == application_layout(root@, sh.take(i as int)) + seq![(GattObjectKind::Service, sp@)]
                        + characteristics_layout(sp@, row@.take(j as int)) + seq![(GattObjectKind::Characteristic, cp@)]
                        + descriptors_layout(cp@, k as nat),
                decreases n - k,
            {
                let dp = make_child_path(cp.as_str(), "/desc", k);
                let ghost before_d = objects_view(out@);
                out.push((GattObjectKind::Descriptor, dp));
                assert(objects_view(out@) =~= before_d.push((GattObjectKind::Descriptor, dp@)));
                k = k + 1;
            }
            proof {
                let t = row@.take(j + 1);
                assert(t.drop_last() =~= row@.take(j as int));
                assert(t.last() == n);
                assert(objects_view(out@) =~= application_layout(root@, sh.take(i as int)) + seq![(GattObjectKind::Service, sp@)]
                    + characteristics_layout(sp@, t));
            }
            j = j + 1;
        }
        proof {
            let t = sh.take(i + 1);
            assert(t.drop_last() =~= sh.take(i as int));
            assert(t.last() == row@);
            assert(row@.take(row@.len() as int) =~= row@);
        }
        i = i + 1;
    }
    assert(sh.take(shape@.len() as int) =~= sh);
    out
}

/// The order in which published objects are removed again: the reverse of
/// the order of publishing.
pub fn cleanup_order(objects: &Vec<(GattObjectKind, String)>) -> (r: Vec<(GattObjectKind, String)>)
    ensures
        objects_view(r@) == objects_view(objects@).reverse(),
{
    let mut r: Vec<(GattObjectKind, String)> = Vec::new();
    let mut i: usize = objects.len();
    while i > 0
        invariant
            i <= objects@.len(),
            objects_view(r@) == objects_view(objects@).skip(i as int).reverse(),
        decreases i,
    {
        i = i - 1;
        let ghost before = objects_view(r@);
        r.push((objects[i].0, owned(objects[i].1.as_str())));
        assert(objects_view(r@) =~= before.push((objects@[i as int].0, objects@[i as int].1@)));
        assert(objects_view(objects@).skip(i as int).reverse() =~= objects_view(objects@).skip(i + 1).reverse().push(
            objects_view(objects@)[i as int],
        ));
    }
    assert(objects_view(objects@).skip(0) =~= objects_view(objects@));
    r
}

} // verus!

verus! {

/// How the application serves the writes or the notifications of a
/// characteristic.
#[derive(Clone, Copy, Debug, PartialEq, Eq, Structural)]
pub enum ServeMethod {
    /// A callback of the application is called for each request.
    Callback,
    /// A socket is handed to the application, which reads or writes it.
    Io,
}

/// The notification part of a characteristic definition.
#[derive(Clone, Copy, Debug, PartialEq, Eq, Structural)]
pub struct NotifyDefinition {
    /// How notifications are served.
    pub method: ServeMethod,
    /// The characteristic indicates (with confirmation).
    pub indicate: bool,
    /// The characteristic notifies (without confirmation).
    pub notify: bool,
}

/// What an application defined for a characteristic, as far as the
/// requests of the daemon are concerned.
#[derive(Clone, Copy, Debug, PartialEq, Eq, Structural)]
pub struct CharacteristicMethods {
    /// A read callback is defined.
    pub read: bool,
    /// How writes are served, if they are.
    pub write: Option<ServeMethod>,
    /// How notifications are served, if they are.
    pub notify: Option<NotifyDefinition>,
}

/// A request of the daemon to a characteristic, once its options have
/// been read.
#[derive(Clone, Copy, Debug, PartialEq, Eq, Structural)]
pub enum CharacteristicCall {
    /// `ReadValue`.
    ReadValue,
    /// `WriteValue`.
    WriteValue,
    /// `StartNotify`.
    StartNotify,
    /// `AcquireWrite`.
    AcquireWrite,
    /// `AcquireNotify`.
    AcquireNotify,
}

/// How a characteristic answers a request of the daemon.
#[derive(Clone, Copy, Debug, PartialEq, Eq, Structural)]
pub enum CharacteristicAnswer {
    /// Call the read callback with the request and reply with its value.
    Read,
    /// Call the write callback with the value and the request.
    Write,
    /// Start a notification session for the notify callback; confirmations
    /// of the receiver are passed on when `confirm` is set.
    Notify {
        /// Confirmations are passed on to the session.
        confirm: bool,
    },
    /// Hand a socket for the written data to the application and reply
    /// with the other end and the MTU.
    WriteIo,
    /// Hand a socket for notifications to the application and reply with
    /// the other end and the MTU.
    NotifyIo,
    /// Reply with `NotSupported`.
    NotSupported,
}

/// How a characteristic with the given definition answers a request:
/// each request is served by the part of the definition that serves it in
/// the requested way, and answered with `NotSupported` when there is none.
/// A notification session passes confirmations on when the characteristic
/// indicates and does not notify.
pub fn characteristic_answer(m: CharacteristicMethods, call: CharacteristicCall) -> (r: CharacteristicAnswer)
    ensures
        call == CharacteristicCall::ReadValue ==> r == (if m.read {
            CharacteristicAnswer::Read
        } else {
            CharacteristicAnswer::NotSupported
        }),
        call == CharacteristicCall::WriteValue ==> r == (if m.write == Some(ServeMethod::Callback) {
            CharacteristicAnswer::Write
        } else {
            CharacteristicAnswer::NotSupported
        }),
        call == CharacteristicCall::AcquireWrite ==> r == (if m.write == Some(ServeMethod::Io) {
            CharacteristicAnswer::WriteIo
        } else {
            CharacteristicAnswer::NotSupported
        }),
        call == CharacteristicCall::StartNotify ==> r == (match m.notify {
            Some(n) => if n.method == ServeMethod::Callback {
                CharacteristicAnswer::Notify { confirm: n.indicate && !n.notify }
            } else {
                CharacteristicAnswer::NotSupported
            },
            None => CharacteristicAnswer::NotSupported,
        }),
        call == CharacteristicCall::AcquireNotify ==> r == (match m.notify {
            Some(n) => if n.method == ServeMethod::Io {
                CharacteristicAnswer::NotifyIo
            } else {
                CharacteristicAnswer::NotSupported
            },
            None => CharacteristicAnswer::NotSupported,
        }),
{
    match call {
        CharacteristicCall::ReadValue => if m.read {
            CharacteristicAnswer::Read
        } else {
            CharacteristicAnswer::NotSupported
        },
        CharacteristicCall::WriteValue => match m.write {
            Some(ServeMethod::Callback) => CharacteristicAnswer::Write,
            _ => CharacteristicAnswer::NotSupported,
        },
        CharacteristicCall::AcquireWrite => match m.write {
            Some(ServeMethod::Io) => CharacteristicAnswer::WriteIo,
            _ => CharacteristicAnswer::NotSupported,
        },
        CharacteristicCall::StartNotify => match m.notify {
            Some(NotifyDefinition { method: ServeMethod::Callback, indicate, notify }) => CharacteristicAnswer::Notify {
                confirm: indicate && !notify,
            },
            _ => CharacteristicAnswer::NotSupported,
        },
        CharacteristicCall::AcquireNotify => match m.notify {
            Some(NotifyDefinition { method: ServeMethod::Io, .. }) => CharacteristicAnswer::NotifyIo,
            _ => CharacteristicAnswer::NotSupported,
        },
    }
}

/// The `WriteAcquired` property: always false, whatever the write method.
pub fn write_acquired(m: CharacteristicMethods) -> (r: bool)
    ensures
        !r,
{
    match m.write {
        Some(ServeMethod::Io) => false,
        _ => false,
    }
}

/// The `NotifyAcquired` property: always false, whatever the notify
/// method.
pub fn notify_acquired(m: CharacteristicMethods) -> (r: bool)
    ensures
        !r,
{
    match m.notify {
        Some(NotifyDefinition { method: ServeMethod::Io, .. }) => false,
        _ => false,
    }
}

/// A request of the daemon to a characteristic descriptor, once its
/// options have been read.
#[derive(Clone, Copy, Debug, PartialEq, Eq, Structural)]
pub enum DescriptorCall {
    /// `ReadValue`.
    ReadValue,
    /// `WriteValue`.
    WriteValue,
}

/// How a descriptor with a read callback (`read`) and a write callback
/// (`write`) answers a request: the callback is called, or, without one,
/// the request is answered with `NotSupported` (`None`).
pub fn descriptor_answer(read: bool, write: bool, call: DescriptorCall) -> (r: Option<DescriptorCall>)
    ensures
        call == DescriptorCall::ReadValue ==> r == (if read {
            Some(DescriptorCall::ReadValue)
        } else {
            None::<DescriptorCall>
        }),
        call == DescriptorCall::WriteValue ==> r == (if write {
            Some(DescriptorCall::WriteValue)
        } else {
            None::<DescriptorCall>
        }),
{
    match call {
        DescriptorCall::ReadValue => if read {
            Some(DescriptorCall::ReadValue)
        } else {
            None
        },
        DescriptorCall::WriteValue => if write {
            Some(DescriptorCall::WriteValue)
        } else {
            None
        },
    }
}

} // verus!

verus! {

/// What happened while a notification is sent.
#[derive(Clone, Copy, Debug, PartialEq, Eq, Structural)]
pub enum NotifyEvent {
    /// The send begins; `stopped` tells whether the receiving device has
    /// stopped the session.
    Begin {
        /// The session was stopped.
        stopped: bool,
    },
    /// The value was emitted (`ok`) or emitting failed.
    Sent {
        /// Emitting succeeded.
        ok: bool,
    },
    /// The wait for the confirmation ended with one (`received`) or with
    /// the session gone.
    Confirmation {
        /// A confirmation came.
        received: bool,
    },
}

/// What the notifier does next.
#[derive(Debug)]
pub enum NotifyAction {
    /// Emit the value as a change of the `Value` property, after dropping
    /// confirmations left over from an earlier send when `flush` is set.
    Send {
        /// Drop left-over confirmations first.
        flush: bool,
    },
    /// Wait for the receiving device to confirm.
    AwaitConfirmation,
    /// The send is over, with this result.
    Done(Result<(), Error>),
}

/// The result of a send that ends with an error of this kind.
pub open spec fn fails_with(a: NotifyAction, kind: ErrorKind) -> bool {
    a matches NotifyAction::Done(Err(e)) && e.kind == kind && e.message@.len() == 0
}

/// The next step of sending a notification (or, when `confirming`, an
/// indication): a stopped session fails; otherwise the value is sent, and
/// an indication waits for its confirmation; a failed send fails as a
/// stopped session, a missing confirmation as an unconfirmed indication.
pub fn notify_step(confirming: bool, ev: NotifyEvent) -> (r: NotifyAction)
    ensures
        ev == (NotifyEvent::Begin { stopped: true }) ==> fails_with(r, ErrorKind::NotificationSessionStopped),
        ev == (NotifyEvent::Begin { stopped: false }) ==> (r matches NotifyAction::Send { flush } && flush
            == confirming),
        ev == (NotifyEvent::Sent { ok: false }) ==> fails_with(r, ErrorKind::NotificationSessionStopped),
        ev == (NotifyEvent::Sent { ok: true }) ==> (if confirming {
            r is AwaitConfirmation
        } else {
            r matches NotifyAction::Done(Ok(()))
        }),
        ev == (NotifyEvent::Confirmation { received: true }) ==> r matches NotifyAction::Done(Ok(())),
        ev == (NotifyEvent::Confirmation { received: false }) ==> fails_with(r, ErrorKind::IndicationUnconfirmed),
{
    match ev {
        NotifyEvent::Begin { stopped } => if stopped {
            NotifyAction::Done(Err(Error::new(ErrorKind::NotificationSessionStopped)))
        } else {
            NotifyAction::Send { flush: confirming }
        },
        NotifyEvent::Sent { ok } => if !ok {
            NotifyAction::Done(Err(Error::new(ErrorKind::NotificationSessionStopped)))
        } else if confirming {
            NotifyAction::AwaitConfirmation
        } else {
            NotifyAction::Done(Ok(()))
        },
        NotifyEvent::Confirmation { received } => if received {
            NotifyAction::Done(Ok(()))
        } else {
            NotifyAction::Done(Err(Error::new(ErrorKind::IndicationUnconfirmed)))
        },
    }
}

/// The changed properties of a notification: the `Value` property with the
/// sent value.
pub fn notification_properties(value: Vec<u8>) -> (r: Dict)
    ensures
        r.get_spec("Value"@) matches Some(PropValue::Bytes(v)) && v@ == value@,
        forall|k: Seq<char>| k != "Value"@ ==> #[trigger] r.get_spec(k) is None,
{
    let mut d = Dict::new();
    assert forall|k: Seq<char>| #[trigger] d.get_spec(k) is None by {}
    d.insert("Value", PropValue::Bytes(value));
    d
}

} // verus!

verus! {

/// The `Handle` property of an optional handle: the handle, or 0 when none
/// is set.
pub open spec fn handle_value(h: Option<u16>) -> u16 {
    match h {
        Some(x) => x,
        None => 0,
    }
}

/// The properties that a published GATT service has: its UUID in
/// hyphenated text, whether it is primary, and its handle.
pub fn service_properties(uuid: u128, primary: bool, handle: Option<u16>) -> (r: Dict)
    ensures
        r.get_spec("UUID"@) matches Some(PropValue::Str(t)) && t@ == uuid_text(uuid),
        r.get_spec("Primary"@) == Some(PropValue::Bool(primary)),
        r.get_spec("Handle"@) == Some(PropValue::U16(handle_value(handle))),
{
    proof {
        reveal_strlit("UUID");
        reveal_strlit("Primary");
        reveal_strlit("Handle");
        assert("UUID"@.len() == 4 && "Primary"@.len() == 7 && "Handle"@.len() == 6);
    }
    let mut d = Dict::new();
    assert forall|k: Seq<char>| #[trigger] d.get_spec(k) is None by {}
    d.insert("UUID", PropValue::Str(uuid_string(uuid)));
    d.insert("Primary", PropValue::Bool(primary));
    d.insert("Handle", PropValue::U16(handle.unwrap_or(0)));
    d
}

/// The properties that a published GATT characteristic has besides its
/// flags: its UUID in hyphenated text, the object path of its service, its
/// handle, and the two acquired properties, which are always false.
pub fn characteristic_properties(uuid: u128, service_path: &str, handle: Option<u16>, m: CharacteristicMethods) -> (r: Dict)
    ensures
        r.get_spec("UUID"@) matches Some(PropValue::Str(t)) && t@ == uuid_text(uuid),
        r.get_spec("Service"@) matches Some(PropValue::ObjectPath(p)) && p@ == service_path@,
        r.get_spec("Handle"@) == Some(PropValue::U16(handle_value(handle))),
        r.get_spec("WriteAcquired"@) == Some(PropValue::Bool(false)),
        r.get_spec("NotifyAcquired"@) == Some(PropValue::Bool(false)),
{
    proof {
        reveal_strlit("UUID");
        reveal_strlit("Service");
        reveal_strlit("Handle");
        reveal_strlit("WriteAcquired");
        reveal_strlit("NotifyAcquired");
        assert("UUID"@.len() == 4 && "Service"@.len() == 7 && "Handle"@.len() == 6);
        assert("WriteAcquired"@.len() == 13 && "NotifyAcquired"@.len() == 14);
    }
    let mut d = Dict::new();
    assert forall|k: Seq<char>| #[trigger] d.get_spec(k) is None by {}
    d.insert("UUID", PropValue::Str(uuid_string(uuid)));
    d.insert("Service", PropValue::ObjectPath(owned(service_path)));
    d.insert("Handle", PropValue::U16(handle.unwrap_or(0)));
    d.insert("WriteAcquired", PropValue::Bool(write_acquired(m)));
    d.insert("NotifyAcquired", PropValue::Bool(notify_acquired(m)));
    d
}

/// The properties that a published characteristic descriptor has besides
/// its flags: its UUID in hyphenated text, the object path of its
/// characteristic, and its handle.
pub fn descriptor_properties(uuid: u128, characteristic_path: &str, handle: Option<u16>) -> (r: Dict)
    ensures
        r.get_spec("UUID"@) matches Some(PropValue::Str(t)) && t@ == uuid_text(uuid),
        r.get_spec("Characteristic"@) matches Some(PropValue::ObjectPath(p)) && p@ == characteristic_path@,
        r.get_spec("Handle"@) == Some(PropValue::U16(handle_value(handle))),
{
    proof {
        reveal_strlit("UUID");
        reveal_strlit("Characteristic");
        reveal_strlit("Handle");
        assert("UUID"@.len() == 4 && "Characteristic"@.len() == 14 && "Handle"@.len() == 6);
    }
    let mut d = Dict::new();
    assert forall|k: Seq<char>| #[trigger] d.get_spec(k) is None by {}
    d.insert("UUID", PropValue::Str(uuid_string(uuid)));
    d.insert("Characteristic", PropValue::ObjectPath(owned(characteristic_path)));
    d.insert("Handle", PropValue::U16(handle.unwrap_or(0)));
    d
}

/// The properties of a published GATT client profile: its UUIDs in
/// hyphenated text.
pub fn gatt_profile_properties(uuids: &Vec<u128>) -> (r: Dict)
    ensures
        r.get_spec("UUIDs"@) matches Some(PropValue::StrArray(v)) && texts(v@) == uuids@.map_values(
            |u: u128| uuid_text(u),
        ),
{
    let mut d = Dict::new();
    assert forall|k: Seq<char>| #[trigger] d.get_spec(k) is None by {}
    d.insert("UUIDs", PropValue::StrArray(uuid_texts(uuids)));
    d
}

} // verus!

verus! {

/// A step of taking a GATT application down again.
#[derive(Clone, Debug)]
pub enum TeardownStep {
    /// Call `UnregisterApplication` with the application's root path.
    Unregister(String),
    /// Remove a published service, characteristic or descriptor.
    Remove(GattObjectKind, String),
    /// Remove the object manager at the root path.
    RemoveRoot(String),
}

/// The steps of dropping the handle of a GATT application published at
/// `root` with the given objects (in the order of publishing): first
/// `UnregisterApplication`, then every object removed in the exact reverse
/// order of publishing, so each descriptor before its characteristic and
/// each characteristic before its service, and the object manager at the
/// root, published first, last.
pub fn teardown_steps(root: &str, objects: &Vec<(GattObjectKind, String)>) -> (r: Vec<TeardownStep>)
    requires
        objects@.len() + 2 <= usize::MAX,
    ensures
        r@.len() == objects@.len() + 2,
        r@[0] matches TeardownStep::Unregister(p) && p@ == root@,
        r@[r@.len() - 1] matches TeardownStep::RemoveRoot(p) && p@ == root@,
        forall|i: int| 0 <= i < objects@.len() ==> (#[trigger] r@[i + 1] matches TeardownStep::Remove(k, p) && k
            == objects@[objects@.len() - 1 - i].0 && p@ == objects@[objects@.len() - 1 - i].1@),
{
    let mut r: Vec<TeardownStep> = Vec::new();
    r.push(TeardownStep::Unregister(owned(root)));
    let n = objects.len();
    let mut i: usize = 0;
    while i < n
        invariant
            n == objects@.len(),
            i <= n,
            r@.len() == i + 1,
            r@[0] matches TeardownStep::Unregister(p) && p@ == root@,
            forall|j: int| 0 <= j < i ==> (#[trigger] r@[j + 1] matches TeardownStep::Remove(k, p) && k
                == objects@[n - 1 - j].0 && p@ == objects@[n - 1 - j].1@),
        decreases n - i,
    {
        let o = &objects[n - 1 - i];
        r.push(TeardownStep::Remove(o.0, owned(o.1.as_str())));
        i = i + 1;
    }
    r.push(TeardownStep::RemoveRoot(owned(root)));
    r
}

} // verus!

verus! {

/// The kind of the object at index `k`.
pub open spec fn kind_at(l: Seq<(GattObjectKind, Seq<char>)>, k: int) -> GattObjectKind {
    l[k].0
}

/// Each descriptor of the list comes after a characteristic whose path its
/// own path begins with.
pub open spec fn descriptors_after_characteristics(l: Seq<(GattObjectKind, Seq<char>)>) -> bool {
    forall|k: int|
        0 <= k < l.len() && #[trigger] kind_at(l, k) == GattObjectKind::Descriptor ==> exists|j: int|
            0 <= j < k && l[j].0 == GattObjectKind::Characteristic && crate::text::has_prefix(l[k].1, l[j].1)
}

/// Each characteristic of the list comes after a service whose path its
/// own path begins with.
pub open spec fn characteristics_after_services(l: Seq<(GattObjectKind, Seq<char>)>) -> bool {
    forall|k: int|
        0 <= k < l.len() && #[trigger] kind_at(l, k) == GattObjectKind::Characteristic ==> exists|j: int|
            0 <= j < k && l[j].0 == GattObjectKind::Service && crate::text::has_prefix(l[k].1, l[j].1)
}

/// Each object of the list that is not a service comes after an object one
/// level up (a characteristic after a service, a descriptor after a
/// characteristic) whose path its own path begins with.
pub open spec fn parents_first(l: Seq<(GattObjectKind, Seq<char>)>) -> bool {
    characteristics_after_services(l) && descriptors_after_characteristics(l)
}

/// Every object of the list is of the kind and below the path given.
pub open spec fn all_below(l: Seq<(GattObjectKind, Seq<char>)>, p: Seq<char>) -> bool {
    forall|k: int| 0 <= k < l.len() ==> #[trigger] crate::text::has_prefix(l[k].1, p)
}

proof fn lemma_prefix_trans(a: Seq<char>, b: Seq<char>, c: Seq<char>)
    requires
        crate::text::has_prefix(a, b),
        crate::text::has_prefix(b, c),
    ensures
        crate::text::has_prefix(a, c),
{
    assert(a.take(c.len() as int) =~= b.take(c.len() as int));
}

proof fn lemma_child_prefix(parent: Seq<char>, tag: Seq<char>, i: nat)
    ensures
        crate::text::has_prefix(child_path(parent, tag, i), parent),
{
    assert(child_path(parent, tag, i).take(parent.len() as int) =~= parent);
}

proof fn lemma_descriptors_layout(cp: Seq<char>, n: nat)
    ensures
        all_below(descriptors_layout(cp, n), cp),
        forall|k: int| 0 <= k < descriptors_layout(cp, n).len() ==> #[trigger] descriptors_layout(cp, n)[k].0
            == GattObjectKind::Descriptor,
        descriptors_layout(cp, n).len() == n,
    decreases n,
{
    if n > 0 {
        lemma_descriptors_layout(cp, (n - 1) as nat);
        lemma_child_prefix(cp, "/desc"@, (n - 1) as nat);
        let l = descriptors_layout(cp, n);
        let p = descriptors_layout(cp, (n - 1) as nat);
        assert forall|k: int| 0 <= k < l.len() implies #[trigger] crate::text::has_prefix(l[k].1, cp) by {
            if k < p.len() {
                assert(l[k] == p[k]);
            }
        }
        assert forall|k: int| 0 <= k < l.len() implies #[trigger] l[k].0 == GattObjectKind::Descriptor by {
            if k < p.len() {
                assert(l[k] == p[k]);
            }
        }
    }
}

proof fn lemma_characteristics_layout(sp: Seq<char>, descs: Seq<usize>)
    ensures
        all_below(characteristics_layout(sp, descs), sp),
        descriptors_after_characteristics(characteristics_layout(sp, descs)),
        forall|k: int| 0 <= k < characteristics_layout(sp, descs).len() ==> #[trigger] characteristics_layout(
            sp,
            descs,
        )[k].0 != GattObjectKind::Service,
    decreases descs.len(),
{
    if descs.len() > 0 {
        let j = (descs.len() - 1) as nat;
        let cp = child_path(sp, "/char"@, j);
        let p = characteristics_layout(sp, descs.drop_last());
        let d = descriptors_layout(cp, descs.last() as nat);
        let l = characteristics_layout(sp, descs);
        lemma_characteristics_layout(sp, descs.drop_last());
        lemma_descriptors_layout(cp, descs.last() as nat);
        lemma_child_prefix(sp, "/char"@, j);
        assert(l == p + seq![(GattObjectKind::Characteristic, cp)] + d);
        let c = p.len();
        assert(l[c as int] == (GattObjectKind::Characteristic, cp));
        assert forall|k: int| 0 <= k < l.len() implies #[trigger] crate::text::has_prefix(l[k].1, sp) by {
            if k < c {
                assert(l[k] == p[k]);
            } else if k > c {
                assert(l[k] == d[k - c - 1]);
                lemma_prefix_trans(l[k].1, cp, sp);
            }
        }
        assert forall|k: int| 0 <= k < l.len() implies #[trigger] l[k].0 != GattObjectKind::Service by {
            if k < c {
                assert(l[k] == p[k]);
            } else if k > c {
                assert(l[k] == d[k - c - 1]);
            }
        }
        assert forall|k: int|
            0 <= k < l.len() && #[trigger] kind_at(l, k) == GattObjectKind::Descriptor implies exists|i: int|
                0 <= i < k && l[i].0 == GattObjectKind::Characteristic && crate::text::has_prefix(l[k].1, l[i].1) by {
            if k < c {
                assert(l[k] == p[k]);
                assert(kind_at(p, k) == p[k].0);
                let i = choose|i: int|
                    0 <= i < k && p[i].0 == GattObjectKind::Characteristic && crate::text::has_prefix(p[k].1, p[i].1);
                assert(l[i] == p[i]);
            } else {
                assert(l[k] == d[k - c - 1]);
                assert(crate::text::has_prefix(l[k].1, l[c as int].1));
            }
        }
    }
}

proof fn lemma_service_then_children(
    p: Seq<(GattObjectKind, Seq<char>)>,
    sp: Seq<char>,
    cl: Seq<(GattObjectKind, Seq<char>)>,
)
    requires
        parents_first(p),
        descriptors_after_characteristics(cl),
        all_below(cl, sp),
        forall|k: int| 0 <= k < cl.len() ==> #[trigger] cl[k].0 != GattObjectKind::Service,
    ensures
        parents_first(p + seq![(GattObjectKind::Service, sp)] + cl),
{
    let l = p + seq![(GattObjectKind::Service, sp)] + cl;
    let c = p.len();
    assert(l[c as int] == (GattObjectKind::Service, sp));
    assert forall|k: int|
        0 <= k < l.len() && #[trigger] kind_at(l, k) == GattObjectKind::Characteristic implies exists|j: int|
            0 <= j < k && l[j].0 == GattObjectKind::Service && crate::text::has_prefix(l[k].1, l[j].1) by {
        if k < c {
            assert(l[k] == p[k]);
            assert(kind_at(p, k) == p[k].0);
            let j = choose|j: int|
                0 <= j < k && p[j].0 == GattObjectKind::Service && crate::text::has_prefix(p[k].1, p[j].1);
            assert(l[j] == p[j]);
        } else {
            assert(l[k] == cl[k - c - 1]);
            assert(crate::text::has_prefix(cl[k - c - 1].1, sp));
        }
    }
    assert forall|k: int|
        0 <= k < l.len() && #[trigger] kind_at(l, k) == GattObjectKind::Descriptor implies exists|j: int|
            0 <= j < k && l[j].0 == GattObjectKind::Characteristic && crate::text::has_prefix(l[k].1, l[j].1) by {
        if k < c {
            assert(l[k] == p[k]);
            assert(kind_at(p, k) == p[k].0);
            let j = choose|j: int|
                0 <= j < k && p[j].0 == GattObjectKind::Characteristic && crate::text::has_prefix(p[k].1, p[j].1);
            assert(l[j] == p[j]);
        } else {
            let m = k - c - 1;
            assert(l[k] == cl[m]);
            assert(kind_at(cl, m) == cl[m].0);
            let j = choose|j: int|
                0 <= j < m && cl[j].0 == GattObjectKind::Characteristic && crate::text::has_prefix(cl[m].1, cl[j].1);
            assert(l[j + c + 1] == cl[j]);
        }
    }
}

/// In the objects that registering a GATT application publishes, every
/// characteristic comes after its service and every descriptor after its
/// characteristic (each below the other's path).  Since `teardown_steps`
/// removes them in the reverse order, each descriptor is removed before
/// its characteristic and each characteristic before its service.
pub proof fn lemma_application_parents_first(root: Seq<char>, shape: Seq<Seq<usize>>)
    ensures
        parents_first(application_layout(root, shape)),
    decreases shape.len(),
{
    if shape.len() > 0 {
        let i = (shape.len() - 1) as nat;
        let sp = child_path(root, "/service"@, i);
        lemma_application_parents_first(root, shape.drop_last());
        lemma_characteristics_layout(sp, shape.last());
        lemma_service_then_children(application_layout(root, shape.drop_last()), sp, characteristics_layout(sp, shape.last()));
    }
}

} // verus!
