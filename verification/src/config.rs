//! The process-wide configuration: loaded once before serving begins and
//! read-only afterwards. The file format itself is the I/O layer's business;
//! this module assembles and validates a `Configuration` from the two plain
//! key-value sections that the loader hands in, in the order the loader
//! reads them.

use vstd::prelude::*;

use crate::addr::{Ipv4Parts, SocketAddr4, parse_ipv4, spec_parse_ipv4};
use crate::numbers::{parse_u16, spec_parse_u16};

verus! {

/// Process-wide configuration, shared read-only with every submission.
#[derive(Clone, Debug, PartialEq)]
pub struct Configuration {
    pub host: String,
    pub port: u16,
    pub socket_addr: SocketAddr4,
    pub db_filename: String,
    pub template_folder: String,
    pub email_from: String,
    pub email_server: String,
    pub email_hello: String,
    pub email_username: String,
    pub email_password: String,
    pub course1: String,
    pub course2: String,
}

/// Why a configuration could not be assembled.
///
/// - `Ini`: a required key (or its whole section) is missing.
/// - `Value`: the port is not a sixteen-bit decimal number.
/// - `IP`: the host is not a dotted-quad address.
#[derive(Debug, PartialEq, Eq, Clone, Copy)]
pub enum ConfigError {
    Ini,
    Value,
    IP,
}

/// The value that `entries` associates with `key`, if any; a later entry
/// for the same key shadows an earlier one.
pub open spec fn str_at(entries: Seq<(String, String)>, key: Seq<char>) -> Option<Seq<char>>
    decreases entries.len(),
{
    if entries.len() == 0 {
        None
    } else if entries.last().0@ == key {
        Some(entries.last().1@)
    } else {
        str_at(entries.drop_last(), key)
    }
}

/// One section of the configuration, as plain key-value pairs in file
/// order.
#[derive(Debug)]
pub struct IniSection {
    entries: Vec<(String, String)>,
}

impl View for IniSection {
    type V = Seq<(String, String)>;

    closed spec fn view(&self) -> Seq<(String, String)> {
        self.entries@
    }
}

impl IniSection {
    /// An empty section.
    pub fn new() -> (r: IniSection)
        ensures
            r@ == Seq::<(String, String)>::empty(),
    {
        IniSection { entries: Vec::new() }
    }

    /// Append one key-value pair; a newer pair shadows an older one with
    /// the same key.
    pub fn push(&mut self, key: &str, value: &str)
        ensures
            final(self)@.len() == old(self)@.len() + 1,
            final(self)@.last().0@ == key@,
            final(self)@.last().1@ == value@,
            final(self)@.drop_last() == old(self)@,
            str_at(final(self)@, key@) == Some(value@),
            forall|k: Seq<char>|
                #![trigger str_at(final(self)@, k)]
                k != key@ ==> str_at(final(self)@, k) == str_at(old(self)@, k),
    {
        self.entries.push((key.to_owned(), value.to_owned()));
        proof {
            assert(self.entries@.drop_last() =~= old(self)@);
        }
    }

    /// The value bound to `key`, if any.
    pub fn get(&self, key: &str) -> (r: Option<String>)
        ensures
            match r {
                Some(v) => str_at(self@, key@) == Some(v@),
                None => str_at(self@, key@) is None,
            },
    {
        let k: String = key.to_owned();
        let mut i: usize = self.entries.len();
        proof {
            assert(self@.take(i as int) =~= self@);
        }
        while i > 0
            invariant
                i <= self@.len(),
                k@ == key@,
                str_at(self@, key@) == str_at(self@.take(i as int), key@),
            decreases i,
        {
            i = i - 1;
            proof {
                assert(self@.take(i + 1).last() == self@[i as int]);
                assert(self@.take(i + 1).drop_last() =~= self@.take(i as int));
            }
            let entry = &self.entries[i];
            if entry.0 == k {
                return Some(entry.1.clone());
            }
        }
        proof {
            assert(self@.take(0) =~= Seq::<(String, String)>::empty());
        }
        None
    }
}

/// The first reason, in reading order, why the two sections do not assemble
/// into a configuration: a missing key, then a malformed port, then a
/// malformed host address.
pub open spec fn spec_config_error(
    basic: Seq<(String, String)>,
    email: Seq<(String, String)>,
) -> Option<ConfigError> {
    if str_at(basic, "host"@) is None {
        Some(ConfigError::Ini)
    } else if str_at(basic, "port"@) is None {
        Some(ConfigError::Ini)
    } else if spec_parse_u16(str_at(basic, "port"@)->Some_0) is None {
        Some(ConfigError::Value)
    } else if str_at(basic, "db_filename"@) is None {
        Some(ConfigError::Ini)
    } else if str_at(basic, "template_folder"@) is None {
        Some(ConfigError::Ini)
    } else if spec_parse_ipv4(str_at(basic, "host"@)->Some_0) is None {
        Some(ConfigError::IP)
    } else if str_at(email, "from"@) is None {
        Some(ConfigError::Ini)
    } else if str_at(email, "server"@) is None {
        Some(ConfigError::Ini)
    } else if str_at(email, "hello"@) is None {
        Some(ConfigError::Ini)
    } else if str_at(email, "username"@) is None {
        Some(ConfigError::Ini)
    } else if str_at(email, "password"@) is None {
        Some(ConfigError::Ini)
    } else if str_at(email, "course1"@) is None {
        Some(ConfigError::Ini)
    } else if str_at(email, "course2"@) is None {
        Some(ConfigError::Ini)
    } else {
        None
    }
}

/// Assemble the configuration from the `Basic` and `EMail` sections of the
/// configuration file, validating the port and the host address; fails with
/// the first error in reading order.
pub fn configuration_from_sections(basic: &IniSection, email: &IniSection) -> (r: Result<
    Configuration,
    ConfigError,
>)
    ensures
        r is Ok <==> spec_config_error(basic@, email@) is None,
        r matches Err(e) ==> Some(e) == spec_config_error(basic@, email@),
        r matches Ok(c) ==> {
            &&& c.host@ == str_at(basic@, "host"@)->Some_0
            &&& Some(c.port) == spec_parse_u16(str_at(basic@, "port"@)->Some_0)
            &&& Some(c.socket_addr.ip) == spec_parse_ipv4(str_at(basic@, "host"@)->Some_0)
            &&& c.socket_addr.port == c.port
            &&& c.db_filename@ == str_at(basic@, "db_filename"@)->Some_0
            &&& c.template_folder@ == str_at(basic@, "template_folder"@)->Some_0
            &&& c.email_from@ == str_at(email@, "from"@)->Some_0
            &&& c.email_server@ == str_at(email@, "server"@)->Some_0
            &&& c.email_hello@ == str_at(email@, "hello"@)->Some_0
            &&& c.email_username@ == str_at(email@, "username"@)->Some_0
            &&& c.email_password@ == str_at(email@, "password"@)->Some_0
            &&& c.course1@ == str_at(email@, "course1"@)->Some_0
            &&& c.course2@ == str_at(email@, "course2"@)->Some_0
        },
{
    let host = match basic.get("host") {
        Some(v) => v,
        None => {
            return Err(ConfigError::Ini);
        },
    };
    let port_text = match basic.get("port") {
        Some(v) => v,
        None => {
            return Err(ConfigError::Ini);
        },
    };
    let port = match parse_u16(port_text.as_str()) {
        Some(p) => p,
        None => {
            return Err(ConfigError::Value);
        },
    };
    let db_filename = match basic.get("db_filename") {
        Some(v) => v,
        None => {
            return Err(ConfigError::Ini);
        },
    };
    let template_folder = match basic.get("template_folder") {
        Some(v) => v,
        None => {
            return Err(ConfigError::Ini);
        },
    };
    let host_ip: Ipv4Parts = match parse_ipv4(host.as_str()) {
        Some(ip) => ip,
        None => {
            return Err(ConfigError::IP);
        },
    };
    let socket_addr = SocketAddr4 { ip: host_ip, port };
    let email_from = match email.get("from") {
        Some(v) => v,
        None => {
            return Err(ConfigError::Ini);
        },
    };
    let email_server = match email.get("server") {
        Some(v) => v,
        None => {
            return Err(ConfigError::Ini);
        },
    };
    let email_hello = match email.get("hello") {
        Some(v) => v,
        None => {
            return Err(ConfigError::Ini);
        },
    };
    let email_username = match email.get("username") {
        Some(v) => v,
        None => {
            return Err(ConfigError::Ini);
        },
    };
    let email_password = match email.get("password") {
        Some(v) => v,
        None => {
            return Err(ConfigError::Ini);
        },
    };
    let course1 = match email.get("course1") {
        Some(v) => v,
        None => {
            return Err(ConfigError::Ini);
        },
    };
    let course2 = match email.get("course2") {
        Some(v) => v,
        None => {
            return Err(ConfigError::Ini);
        },
    };

    Ok(
        Configuration {
            host,
            port,
            socket_addr,
            db_filename,
            template_folder,
            email_from,
            email_server,
            email_hello,
            email_username,
            email_password,
            course1,
            course2,
        },
    )
}

} // verus!
