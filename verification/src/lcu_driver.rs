//! The local-client protocol driver's verified half: discovering the RPC
//! peer's connection parameters from a running process's command line, and
//! the strings every authenticated connection is built from. The HTTP and
//! WebSocket round trips themselves stay with the caller.

use vstd::prelude::*;

use sysinfo::{ProcessExt, SystemExt};

use crate::jsonval::{parse_json, wf_json};
use crate::text::{all_digits, dec_str, dec_value, parse_u16, str_starts_with};

verus! {

broadcast use vstd::string::group_string_axioms;

/// Connection parameters of one client session: the RPC port and the auth
/// token, both read from the client process's command line. A usable
/// session has a non-zero port and a non-empty token.
#[derive(Clone, Debug)]
pub struct LcuDriverConfig {
    pub remoting_app_port: u16,
    pub auth_token: String,
}

/// The value of the last command-line argument starting with `prefix`, with
/// the prefix cut off.
pub open spec fn last_flag_value(cmds: Seq<Seq<char>>, prefix: Seq<char>) -> Option<Seq<char>>
    decreases cmds.len(),
{
    if cmds.len() == 0 {
        None
    } else if cmds.last().len() >= prefix.len() && cmds.last().subrange(
        0,
        prefix.len() as int,
    ) == prefix {
        Some(cmds.last().skip(prefix.len() as int))
    } else {
        last_flag_value(cmds.drop_last(), prefix)
    }
}

/// Whether a port flag value is usable: a non-empty digit string whose
/// value is a valid, non-zero port.
pub open spec fn valid_port_flag(v: Option<Seq<char>>) -> bool {
    &&& v is Some
    &&& v->0.len() > 0
    &&& all_digits(v->0)
    &&& 0 < dec_value(v->0) <= 65535
}

/// Whether a token flag value is usable: present and non-empty.
pub open spec fn valid_token_flag(v: Option<Seq<char>>) -> bool {
    v is Some && v->0.len() > 0
}

/// Scans the argument list for the trailing value of one flag prefix,
/// later occurrences winning.
fn scan_flag(cmd: &Vec<String>, prefix: &str) -> (r: Option<String>)
    ensures
        match last_flag_value(cmd.deep_view(), prefix@) {
            Some(v) => r matches Some(s) && s@ == v,
            None => r is None,
        },
{
    let ghost dv = cmd.deep_view();
    let n = cmd.len();
    let mut cur: Option<String> = None;
    let mut i: usize = 0;
    proof {
        assert(dv.subrange(0, 0) =~= Seq::<Seq<char>>::empty());
    }
    while i < n
        invariant
            0 <= i <= n,
            n == cmd@.len(),
            dv == cmd.deep_view(),
            dv.len() == n,
            forall|j: int| 0 <= j < n ==> dv[j] == cmd@[j]@,
            match last_flag_value(dv.subrange(0, i as int), prefix@) {
                Some(v) => cur matches Some(s) && s@ == v,
                None => cur is None,
            },
        decreases n - i,
    {
        let arg = &cmd[i];
        if str_starts_with(arg.as_str(), prefix) {
            let plen = prefix.unicode_len();
            let alen = arg.as_str().unicode_len();
            let tail = arg.as_str().substring_char(plen, alen);
            cur = Some(tail.to_owned());
            proof {
                assert(arg@.skip(prefix@.len() as int) =~= arg@.subrange(
                    prefix@.len() as int,
                    arg@.len() as int,
                ));
            }
        }
        proof {
            let sub1 = dv.subrange(0, i + 1);
            assert(sub1.drop_last() =~= dv.subrange(0, i as int));
            assert(sub1.last() == dv[i as int]);
        }
        i = i + 1;
    }
    proof {
        assert(dv.subrange(0, n as int) =~= dv);
    }
    cur
}

impl LcuDriverConfig {
    /// Reads the connection parameters out of a client command line: the
    /// last occurrences of the port and token flags must both be present
    /// and usable, else discovery fails with a textual reason.
    pub fn from_cmdline(cmd: &Vec<String>) -> (r: Result<LcuDriverConfig, String>)
        ensures
            cmd.deep_view().len() == 0 ==> (r matches Err(m) && m@
                == "League of Legends client command line is null."@),
            cmd.deep_view().len() > 0 ==> {
                let ps = last_flag_value(cmd.deep_view(), "--app-port="@);
                let ts = last_flag_value(cmd.deep_view(), "--remoting-auth-token="@);
                &&& r is Ok <==> valid_port_flag(ps) && valid_token_flag(ts)
                &&& r matches Ok(c) ==> c.remoting_app_port as int == dec_value(ps->0)
                    && c.auth_token@ == ts->0
            },
            r matches Ok(c) ==> c.remoting_app_port > 0 && c.auth_token@.len() > 0,
    {
        if cmd.len() == 0 {
            return Err("League of Legends client command line is null.".to_owned());
        }
        let port_flag = scan_flag(cmd, "--app-port=");
        let token_flag = scan_flag(cmd, "--remoting-auth-token=");
        let port: u16 = match port_flag {
            Some(s) => match parse_u16(s.as_str()) {
                Some(p) => {
                    if p == 0 {
                        return Err(
                            "League of Legends client did not expose a usable app port.".to_owned(),
                        );
                    }
                    p
                },
                None => {
                    return Err(
                        "League of Legends client did not expose a usable app port.".to_owned(),
                    );
                },
            },
            None => {
                return Err(
                    "League of Legends client did not expose a usable app port.".to_owned(),
                );
            },
        };
        let auth_token: String = match token_flag {
            Some(s) => {
                if s.as_str().unicode_len() == 0 {
                    return Err(
                        "League of Legends client did not expose an auth token.".to_owned(),
                    );
                }
                s
            },
            None => {
                return Err("League of Legends client did not expose an auth token.".to_owned());
            },
        };
        Ok(LcuDriverConfig { remoting_app_port: port, auth_token })
    }

    /// Locates the running client and reads its connection parameters.
    /// Callers retry on a fixed interval until this succeeds: the client
    /// may start after this system does.
    pub fn from_client() -> (r: Result<LcuDriverConfig, String>)
        ensures
            r matches Ok(c) ==> c.remoting_app_port > 0 && c.auth_token@.len() > 0,
    {
        match client_process_cmdline("LeagueClientUx.exe") {
            None => Err("Can't found League of Legends client.".to_owned()),
            Some(cmd) => LcuDriverConfig::from_cmdline(&cmd),
        }
    }

    /// The fixed local base URL every RPC request resolves against.
    pub fn http_base_url(&self) -> (r: String)
        ensures
            r@ == spec_base_url(self.remoting_app_port),
    {
        let mut s = String::from_str("https://127.0.0.1:");
        let port = crate::text::u64_to_dec(self.remoting_app_port as u64);
        s.append(port.as_str());
        s
    }

    /// The full URL of one RPC request, for a sub-path starting with `/`.
    pub fn request_url(&self, sub_url: &str) -> (r: String)
        ensures
            r@ == spec_base_url(self.remoting_app_port) + sub_url@,
    {
        let mut s = self.http_base_url();
        s.append(sub_url);
        s
    }

    /// The HTTP Basic authorization header value for this session.
    pub fn auth_header_value(&self) -> (r: String)
        ensures
            r@ == spec_auth_header(self.auth_token@),
    {
        let mut creds = String::from_str("riot:");
        creds.append(self.auth_token.as_str());
        let encoded = encode_base64(creds.as_str().as_bytes());
        let mut s = String::from_str("Basic ");
        s.append(encoded.as_str());
        s
    }
}

/// The fixed local base URL for a given port.
pub open spec fn spec_base_url(port: u16) -> Seq<char> {
    "https://127.0.0.1:"@ + dec_str(port as nat)
}

/// The Basic auth header: the fixed placeholder user, the token as
/// password, base64 over the UTF-8 bytes.
pub open spec fn spec_auth_header(token: Seq<char>) -> Seq<char> {
    "Basic "@ + base64_of(vstd::utf8::encode_utf8("riot:"@ + token))
}

/// The standard base64 encoding of a byte string, padded; a function of the
/// bytes alone, so it may be given a name.
pub uninterp spec fn base64_of(bytes: Seq<u8>) -> Seq<char>;

/// Relies on `base64::encode`: the standard alphabet with `=` padding.
#[verifier::external_body]
fn encode_base64(bytes: &[u8]) -> (r: String)
    ensures
        r@ == base64_of(bytes@),
{
    base64::encode(bytes)
}

/// Relies on `sysinfo::System::new_all`,
/// `sysinfo::SystemExt::processes_by_exact_name` and
/// `sysinfo::ProcessExt::cmd`: the command line of the first running
/// process with exactly that name. The outcome depends on the machine's
/// process table, so nothing is promised of it.
#[verifier::external_body]
fn client_process_cmdline(process_name: &str) -> (r: Option<Vec<String>>) {
    let system = sysinfo::System::new_all();
    let process = system.processes_by_exact_name(process_name).next()?;
    Some(process.cmd().to_vec())
}

/// The response policy of the RPC client: a body that is not well-formed
/// JSON — above all the empty bodies the local peer legitimately returns —
/// is not an error but a null result (`None` here; the caller renders it as
/// the null value). Transport failures never reach this point: they
/// propagate as errors before a body exists.
pub fn decode_rpc_body(body: &str) -> (r: Option<serde_json::Value>)
    ensures
        r is Some <==> wf_json(body@),
        body@.len() == 0 ==> r is None,
{
    parse_json(body)
}

} // verus!
