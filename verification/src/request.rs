//! The request envelope and its JSON serialization.
//!
//! The envelope is written by this crate itself, field by field, so the
//! exact text on the wire is a spec function of the envelope's parts. Keys
//! appear only when their field is present, in the order: `cmd`, then the
//! authentication fields `ts`, `token` and `account`, then `param`.

use vstd::prelude::*;
use vstd::string::StringExecFns;

use crate::auth_data::AuthData;
use crate::json::{
    append_json_string, push_char, spec_dec_digits, spec_json_string, u64_to_dec,
};

verus! {

/// The JSON fields contributed by an authentication block. The block's key
/// bytes are not among them.
pub open spec fn spec_auth_fields_json(a: AuthData) -> Seq<char> {
    seq![','] + spec_json_string("ts"@) + seq![':'] + spec_dec_digits(a.spec_ts() as nat) + seq![',']
        + spec_json_string("token"@) + seq![':'] + spec_json_string(a.spec_token()) + seq![',']
        + spec_json_string("account"@) + seq![':'] + spec_json_string(
        a.spec_username().spec_name(),
    )
}

/// The serialized envelope for a command name, an optional authentication
/// block and an optional parameter.
pub open spec fn spec_request_json_parts(
    cmd: Seq<char>,
    auth: Option<AuthData>,
    parameter: Option<Seq<char>>,
) -> Seq<char> {
    seq!['{'] + spec_json_string("cmd"@) + seq![':'] + spec_json_string(cmd) + (match auth {
        Some(a) => spec_auth_fields_json(a),
        None => Seq::empty(),
    }) + (match parameter {
        Some(p) => seq![','] + spec_json_string("param"@) + seq![':'] + spec_json_string(p),
        None => Seq::empty(),
    }) + seq!['}']
}

/// A request for a public endpoint.
#[derive(Debug)]
pub struct Request {
    /// Command name
    pub cmd: &'static str,
    auth_data: Option<AuthData>,
    parameter: Option<String>,
}

impl Request {
    /// The command name the request carries.
    pub closed spec fn spec_cmd(self) -> Seq<char> {
        self.cmd@
    }

    /// The authentication block the request carries, if any.
    pub closed spec fn spec_auth(self) -> Option<AuthData> {
        self.auth_data
    }

    /// The parameter the request carries, if any.
    pub closed spec fn spec_parameter(self) -> Option<Seq<char>> {
        match self.parameter {
            Some(s) => Some(s@),
            None => None,
        }
    }

    /// What the serializer writes for this request.
    pub open spec fn spec_json(self) -> Seq<char> {
        spec_request_json_parts(self.spec_cmd(), self.spec_auth(), self.spec_parameter())
    }

    /// Creates a new [Request] instance.
    pub fn new(cmd: &'static str, auth_data: Option<AuthData>, parameter: Option<String>) -> (r:
        Self)
        ensures
            r.spec_cmd() == cmd@,
            r.spec_auth() == auth_data,
            r.spec_parameter() == (match parameter {
                Some(s) => Some(s@),
                None => None::<Seq<char>>,
            }),
    {
        Request { cmd, auth_data, parameter }
    }

    /// What the redacting rendering shows for this request: the command
    /// name, whether authentication data is present, and nothing of the
    /// token, the key or the parameter.
    pub open spec fn spec_display(self) -> Seq<char> {
        "Request { cmd: \""@ + self.spec_cmd() + "\", auth_data: \""@ + (match self.spec_auth() {
            Some(_) => "<hidden>"@,
            None => "None"@,
        }) + "\", parameter: \"<hidden>\" }"@
    }

    /// A rendering safe for logs: secrets are replaced by markers, whatever
    /// the request carries.
    pub fn display_string(&self) -> (r: String)
        ensures
            r@ == self.spec_display(),
    {
        let mut out = String::new();
        out.append("Request { cmd: \"");
        out.append(self.cmd);
        out.append("\", auth_data: \"");
        match &self.auth_data {
            Some(_) => out.append("<hidden>"),
            None => out.append("None"),
        }
        out.append("\", parameter: \"<hidden>\" }");
        proof {
            assert(out@ =~= self.spec_display());
        }
        out
    }

    /// Serialize the envelope. Absent fields are omitted entirely, and the
    /// authentication block's key bytes are never written.
    pub fn to_json(&self) -> (r: String)
        ensures
            r@ == self.spec_json(),
    {
        let mut out = String::new();
        push_char(&mut out, '{');
        append_json_string(&mut out, "cmd");
        push_char(&mut out, ':');
        append_json_string(&mut out, self.cmd);
        proof {
            assert(out@ =~= seq!['{'] + spec_json_string("cmd"@) + seq![':'] + spec_json_string(
                self.spec_cmd(),
            ));
        }
        let ghost head = out@;
        match &self.auth_data {
            Some(a) => {
                push_char(&mut out, ',');
                append_json_string(&mut out, "ts");
                push_char(&mut out, ':');
                let ts_text = u64_to_dec(a.ts());
                out.append(ts_text.as_str());
                push_char(&mut out, ',');
                append_json_string(&mut out, "token");
                push_char(&mut out, ':');
                append_json_string(&mut out, a.token());
                push_char(&mut out, ',');
                append_json_string(&mut out, "account");
                push_char(&mut out, ':');
                append_json_string(&mut out, a.username().as_str());
                proof {
                    assert(out@ =~= head + spec_auth_fields_json(*a));
                }
            },
            None => {},
        }
        let ghost with_auth = out@;
        proof {
            assert(with_auth == head + (match self.spec_auth() {
                Some(a) => spec_auth_fields_json(a),
                None => Seq::<char>::empty(),
            })) by {
                if self.spec_auth() is None {
                    assert(with_auth =~= head + Seq::<char>::empty());
                }
            }
        }
        match &self.parameter {
            Some(p) => {
                push_char(&mut out, ',');
                append_json_string(&mut out, "param");
                push_char(&mut out, ':');
                append_json_string(&mut out, p.as_str());
                proof {
                    assert(out@ =~= with_auth + (seq![','] + spec_json_string("param"@)
                        + seq![':'] + spec_json_string(p@)));
                }
            },
            None => {},
        }
        let ghost with_param = out@;
        proof {
            assert(with_param == with_auth + (match self.spec_parameter() {
                Some(p) => seq![','] + spec_json_string("param"@) + seq![':']
                    + spec_json_string(p),
                None => Seq::<char>::empty(),
            })) by {
                if self.spec_parameter() is None {
                    assert(with_param =~= with_auth + Seq::<char>::empty());
                }
            }
        }
        push_char(&mut out, '}');
        proof {
            assert(out@ =~= self.spec_json());
        }
        out
    }
}

} // verus!
