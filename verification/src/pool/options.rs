//! What a pool is built from.

use vstd::prelude::*;
use vstd::string::StringExecFns;
use crate::jsondoc::{is_readable, parse_members, parsed_members, readable};
use crate::text::{bounded_value, pairs, parse_unsigned, to_chars};

verus! {

/// The settings of a connection pool. A setting that is `None` is left to
/// the database client's default.
#[derive(Debug)]
pub struct PoolOptions {
    pub hostname: Option<String>,
    pub port: Option<u16>,
    pub db_name: Option<String>,
    pub user: Option<String>,
    pub password: Option<String>,
    pub socket: Option<String>,
}

/// The settings of a connection pool, as values.
pub struct PoolOptionsView {
    pub hostname: Option<Seq<char>>,
    pub port: Option<u16>,
    pub db_name: Option<Seq<char>>,
    pub user: Option<Seq<char>>,
    pub password: Option<Seq<char>>,
    pub socket: Option<Seq<char>>,
}

/// Why a JSON text gives no settings.
#[derive(Clone, Copy, Debug, PartialEq, Eq, Structural)]
pub enum OptionsError {
    /// The text holds a run of digits that is too long for it to be read.
    Unreadable,
    /// The text is not a JSON document.
    NotJson,
    /// The port is stated and is not a decimal number from 0 to 65535.
    InvalidPort,
}

/// The view of an optional string.
pub open spec fn optional(text: Option<String>) -> Option<Seq<char>> {
    match text {
        Some(text) => Some(text@),
        None => None,
    }
}

impl View for PoolOptions {
    type V = PoolOptionsView;

    open spec fn view(&self) -> PoolOptionsView {
        PoolOptionsView {
            hostname: optional(self.hostname),
            port: self.port,
            db_name: optional(self.db_name),
            user: optional(self.user),
            password: optional(self.password),
            socket: optional(self.socket),
        }
    }
}

/// A setting passed as a string: the empty string stands for none.
pub open spec fn given(text: Seq<char>) -> Option<Seq<char>> {
    if text.len() == 0 {
        None
    } else {
        Some(text)
    }
}

/// The settings that the five values stand for: an empty string and the
/// port 0 stand for none, and no socket is set.
pub open spec fn basic_options(
    hostname: Seq<char>,
    db_name: Seq<char>,
    user: Seq<char>,
    password: Seq<char>,
    port: u16,
) -> PoolOptionsView {
    PoolOptionsView {
        hostname: given(hostname),
        port: if port != 0 {
            Some(port)
        } else {
            None
        },
        db_name: given(db_name),
        user: given(user),
        password: given(password),
        socket: None,
    }
}

/// The text of the member called `name`: that of the first such member, or
/// `null` where there is none.
pub open spec fn member(members: Seq<(Seq<char>, Seq<char>)>, name: Seq<char>) -> Seq<char>
    decreases members.len(),
{
    if members.len() == 0 {
        "null"@
    } else if members[0].0 == name {
        members[0].1
    } else {
        member(members.drop_first(), name)
    }
}

/// A setting read from a document: `null` and the empty string stand for none.
pub open spec fn stated(text: Seq<char>) -> Option<Seq<char>> {
    if text == "null"@ || text.len() == 0 {
        None
    } else {
        Some(text)
    }
}

/// The settings that the members of a document stand for. The members read
/// are `hostname`, `port`, `db`, `user`, `password` and `socket`; a port
/// that is stated must be a decimal number from 0 to 65535.
pub open spec fn options_of(members: Seq<(Seq<char>, Seq<char>)>) -> Result<
    PoolOptionsView,
    OptionsError,
> {
    let port = stated(member(members, "port"@));
    if port.is_some() && bounded_value(port.unwrap(), 65535).is_none() {
        Err(OptionsError::InvalidPort)
    } else {
        Ok(
            PoolOptionsView {
                hostname: stated(member(members, "hostname"@)),
                port: match port {
                    Some(text) => Some(bounded_value(text, 65535).unwrap() as u16),
                    None => None,
                },
                db_name: stated(member(members, "db"@)),
                user: stated(member(members, "user"@)),
                password: stated(member(members, "password"@)),
                socket: stated(member(members, "socket"@)),
            },
        )
    }
}

/// The settings that a JSON text stands for.
pub open spec fn json_options(text: Seq<char>) -> Result<PoolOptionsView, OptionsError> {
    if !readable(text) {
        Err(OptionsError::Unreadable)
    } else {
        match parsed_members(text) {
            Some(members) => options_of(members),
            None => Err(OptionsError::NotJson),
        }
    }
}

/// The view of a result.
pub open spec fn result_view(r: Result<PoolOptions, OptionsError>) -> Result<
    PoolOptionsView,
    OptionsError,
> {
    match r {
        Ok(options) => Ok(options@),
        Err(error) => Err(error),
    }
}

/// A setting passed as a string, the empty string standing for none.
fn setting(text: &str) -> (r: Option<String>)
    ensures
        optional(r) == given(text@),
{
    if text.unicode_len() == 0 {
        None
    } else {
        Some(String::from_str(text))
    }
}

/// The settings of a pool from five values, of which an empty string and the
/// port 0 stand for "not set".
pub fn basic_pool_options(
    hostname: &str,
    db_name: &str,
    user: &str,
    password: &str,
    port: u16,
) -> (options: PoolOptions)
    ensures
        options@ == basic_options(hostname@, db_name@, user@, password@, port),
{
    PoolOptions {
        hostname: setting(hostname),
        port: if port != 0 {
            Some(port)
        } else {
            None
        },
        db_name: setting(db_name),
        user: setting(user),
        password: setting(password),
        socket: None,
    }
}

/// The text of the member called `name`, or `null` where there is none.
fn member_text(members: &Vec<(String, String)>, name: &str) -> (r: String)
    ensures
        r@ == member(pairs(members@), name@),
{
    let wanted = String::from_str(name);
    let mut i: usize = 0;
    assert(pairs(members@).skip(0) == pairs(members@));
    while i < members.len()
        invariant
            i <= members.len(),
            wanted@ == name@,
            member(pairs(members@), name@) == member(pairs(members@).skip(i as int), name@),
        decreases members.len() - i,
    {
        if members[i].0 == wanted {
            return members[i].1.clone();
        }
        assert(pairs(members@).skip(i as int).drop_first() == pairs(members@).skip(i + 1));
        i = i + 1;
    }
    String::from_str("null")
}

/// A setting read from a document, `null` and the empty string standing for none.
fn stated_setting(text: String) -> (r: Option<String>)
    ensures
        optional(r) == stated(text@),
{
    if text == String::from_str("null") || text.as_str().unicode_len() == 0 {
        None
    } else {
        Some(text)
    }
}

/// The settings of a pool from the members of a document.
pub fn pool_options_from_members(members: &Vec<(String, String)>) -> (r: Result<
    PoolOptions,
    OptionsError,
>)
    ensures
        result_view(r) == options_of(pairs(members@)),
{
    let port = match stated_setting(member_text(members, "port")) {
        Some(text) => match parse_unsigned(&to_chars(text.as_str()), 65535) {
            Some(number) => Some(number as u16),
            None => {
                return Err(OptionsError::InvalidPort);
            },
        },
        None => None,
    };
    Ok(
        PoolOptions {
            hostname: stated_setting(member_text(members, "hostname")),
            port,
            db_name: stated_setting(member_text(members, "db")),
            user: stated_setting(member_text(members, "user")),
            password: stated_setting(member_text(members, "password")),
            socket: stated_setting(member_text(members, "socket")),
        },
    )
}

/// The settings of a pool from a JSON object with the members `hostname`,
/// `port`, `db`, `user`, `password` and `socket`, each of them optional.
///
/// `opts` must be a JSON document that can be read, and a port that it
/// states must be a decimal number from 0 to 65535;
/// `pool_options_from_json` finds out whether that is so.
pub fn json_pool_options(opts: &str) -> (options: PoolOptions)
    requires
        json_options(opts@).is_ok(),
    ensures
        json_options(opts@) == Ok::<PoolOptionsView, OptionsError>(options@),
{
    let members = parse_members(opts).unwrap();
    pool_options_from_members(&members).unwrap()
}

/// The settings of a pool from a JSON object with the members `hostname`,
/// `port`, `db`, `user`, `password` and `socket`, each of them optional; or
/// what keeps `opts` from giving settings.
pub fn pool_options_from_json(opts: &str) -> (r: Result<PoolOptions, OptionsError>)
    ensures
        result_view(r) == json_options(opts@),
{
    if !is_readable(opts) {
        return Err(OptionsError::Unreadable);
    }
    match parse_members(opts) {
        Some(members) => match pool_options_from_members(&members) {
            Ok(_) => Ok(json_pool_options(opts)),
            Err(error) => Err(error),
        },
        None => Err(OptionsError::NotJson),
    }
}

} // verus!
