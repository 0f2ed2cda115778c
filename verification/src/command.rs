//! The command contract and the request-building pipeline.
//!
//! Every concrete command supplies a constant wire name, two security
//! flags and a parameter serializer; the provided methods below build and
//! serialize the request envelope from those pieces. Dispatching the bytes
//! and decoding the typed response happen in the shell that owns the
//! socket.

pub mod get_device_custom_data;
pub mod get_device_info;
pub mod get_fan_settings;
pub mod get_miner_setting;
pub mod get_system_setting;
pub mod set_miner_fastboot;
pub mod set_miner_pools;

use vstd::prelude::*;
use vstd::utf8::encode_utf8;

use crate::auth_data::AuthData;
use crate::codec::str_to_bytes;
use crate::crypto::spec_encrypted_param;
use crate::error::Error;
use crate::request::{spec_request_json_parts, Request};

verus! {

/// The view of an optional parameter string.
pub open spec fn spec_opt_text(p: Option<String>) -> Option<Seq<char>> {
    match p {
        Some(s) => Some(s@),
        None => None,
    }
}

/// The parameter field a built request carries, given the command's
/// encryption flag, the authentication data supplied and the raw parameter:
/// with authentication data and a parameter present, the parameter is
/// encrypted exactly when the command asks for it; otherwise it passes
/// through unchanged.
pub open spec fn spec_built_parameter(
    encrypted: bool,
    auth: Option<AuthData>,
    params: Option<Seq<char>>,
) -> Option<Seq<char>> {
    match auth {
        Some(a) => match params {
            Some(p) => if encrypted {
                Some(spec_encrypted_param(a.spec_key(), encode_utf8(p)))
            } else {
                Some(p)
            },
            None => None,
        },
        None => params,
    }
}

/// Base trait for building commands.
pub trait Command: Sized {
    /// The command name on the wire.
    spec fn spec_cmd_name() -> Seq<char>;

    /// Whether a request must carry an authentication block.
    spec fn spec_secured() -> bool;

    /// Whether the parameter string is encrypted before it is sent; only
    /// meaningful when the command is also secured.
    spec fn spec_encrypted() -> bool;

    /// The parameter string this command value serializes to, if any.
    spec fn spec_params(&self) -> Option<Seq<char>>;

    /// The command name.
    fn cmd_name() -> (r: &'static str)
        ensures
            r@ == Self::spec_cmd_name(),
    ;

    /// Is an authentication block included in the request?
    fn secured() -> (r: bool)
        ensures
            r == Self::spec_secured(),
    ;

    /// Are the parameters encrypted?
    fn encrypted() -> (r: bool)
        ensures
            r == Self::spec_encrypted(),
    ;

    /// Return local params.
    fn params(&self) -> (r: Result<Option<String>, Error>)
        ensures
            r matches Ok(p) && spec_opt_text(p) == self.spec_params(),
    ;

    /// Does the request carry an authentication block?
    fn is_secured(&self) -> (r: bool)
        ensures
            r == Self::spec_secured(),
    {
        Self::secured()
    }

    /// Are the parameters encrypted?
    fn is_encrypted(&self) -> (r: bool)
        ensures
            r == Self::spec_encrypted(),
    {
        Self::encrypted()
    }

    /// Convert the command to a request. A command that wants encrypted
    /// parameters but is handed no authentication data is refused with a
    /// named error before anything touches the network.
    fn to_request(&self, auth_data: Option<AuthData>) -> (r: Result<Request, Error>)
        ensures
            match r {
                Ok(req) => {
                    &&& !(Self::spec_encrypted() && auth_data is None)
                    &&& req.spec_cmd() == Self::spec_cmd_name()
                    &&& req.spec_auth() == auth_data
                    &&& req.spec_parameter() == spec_built_parameter(
                        Self::spec_encrypted(),
                        auth_data,
                        self.spec_params(),
                    )
                },
                Err(e) => {
                    &&& Self::spec_encrypted()
                    &&& auth_data is None
                    &&& e matches Error::CommandSholdHaveAuthData(n) && n@
                        == Self::spec_cmd_name()
                },
            },
    {
        let parameter = match self.params() {
            Ok(p) => p,
            Err(e) => {
                return Err(e);
            },
        };
        let parameter: Option<String> = if let Some(data) = &auth_data {
            if let Some(x) = parameter {
                if Self::encrypted() {
                    let raw = str_to_bytes(x.as_str());
                    match data.encrypt(&raw) {
                        Ok(enc) => Some(enc),
                        Err(e) => {
                            return Err(e);
                        },
                    }
                } else {
                    Some(x)
                }
            } else {
                None
            }
        } else if Self::encrypted() {
            return Err(Error::CommandSholdHaveAuthData(Self::cmd_name()));
        } else {
            parameter
        };
        Ok(Request::new(Self::cmd_name(), auth_data, parameter))
    }

    /// Convert the command to the serialized request envelope.
    fn to_request_to_string(&self, auth_data: Option<AuthData>) -> (r: Result<String, Error>)
        ensures
            match r {
                Ok(s) => !(Self::spec_encrypted() && auth_data is None) && s@
                    == spec_request_json_parts(
                    Self::spec_cmd_name(),
                    auth_data,
                    spec_built_parameter(Self::spec_encrypted(), auth_data, self.spec_params()),
                ),
                Err(e) => {
                    &&& Self::spec_encrypted()
                    &&& auth_data is None
                    &&& e matches Error::CommandSholdHaveAuthData(n) && n@
                        == Self::spec_cmd_name()
                },
            },
    {
        let req = match self.to_request(auth_data) {
            Ok(req) => req,
            Err(e) => {
                return Err(e);
            },
        };
        Ok(req.to_json())
    }

    /// Convert the command to the UTF-8 bytes of the envelope, ready for
    /// framing.
    fn to_request_to_bytes(&self, auth_data: Option<AuthData>) -> (r: Result<Vec<u8>, Error>)
        ensures
            match r {
                Ok(b) => !(Self::spec_encrypted() && auth_data is None) && b@ == encode_utf8(
                    spec_request_json_parts(
                        Self::spec_cmd_name(),
                        auth_data,
                        spec_built_parameter(
                            Self::spec_encrypted(),
                            auth_data,
                            self.spec_params(),
                        ),
                    ),
                ),
                Err(e) => {
                    &&& Self::spec_encrypted()
                    &&& auth_data is None
                    &&& e matches Error::CommandSholdHaveAuthData(n) && n@
                        == Self::spec_cmd_name()
                },
            },
    {
        let text = match self.to_request_to_string(auth_data) {
            Ok(s) => s,
            Err(e) => {
                return Err(e);
            },
        };
        Ok(str_to_bytes(text.as_str()))
    }
}

} // verus!
