//! Process configuration: the values the service is started with.
//!
//! The shell that owns the process reads these from its environment; the
//! library only holds the shapes and the pure derivations — the bind
//! address and the database connection URL.

use vstd::prelude::*;

verus! {

/// The verbosity the process logs at.
#[derive(PartialEq, Eq, Structural, Clone, Copy, Debug)]
pub enum LogLevel {
    Error,
    Warn,
    Info,
    Debug,
    Trace,
}

/// The service's own configuration.
#[derive(Clone)]
pub struct App {
    pub title: String,
    pub version: String,
    pub host: String,
    pub port: u32,
    pub log_level: LogLevel,
    pub workers: usize,
    pub database: Database,
}

/// The relational store's connection parameters.
#[derive(Clone)]
pub struct Database {
    pub database: String,
    pub host: String,
    pub port: u32,
    pub user: String,
    pub password: String,
}

/// The decimal digit characters of `n`, most significant first.
pub open spec fn spec_decimal(n: u32) -> Seq<char>
    decreases n,
{
    if n < 10 {
        seq![spec_digit_char(n)]
    } else {
        spec_decimal(n / 10) + seq![spec_digit_char(n % 10)]
    }
}

/// The character of one decimal digit.
pub open spec fn spec_digit_char(d: u32) -> char {
    if d == 0 {
        '0'
    } else if d == 1 {
        '1'
    } else if d == 2 {
        '2'
    } else if d == 3 {
        '3'
    } else if d == 4 {
        '4'
    } else if d == 5 {
        '5'
    } else if d == 6 {
        '6'
    } else if d == 7 {
        '7'
    } else if d == 8 {
        '8'
    } else {
        '9'
    }
}

/// One decimal digit as a string slice.
fn digit_str(d: u32) -> (r: &'static str)
    requires
        d < 10,
    ensures
        r@ =~= seq![spec_digit_char(d)],
{
    proof {
        reveal_strlit("0");
        reveal_strlit("1");
        reveal_strlit("2");
        reveal_strlit("3");
        reveal_strlit("4");
        reveal_strlit("5");
        reveal_strlit("6");
        reveal_strlit("7");
        reveal_strlit("8");
        reveal_strlit("9");
    }
    match d {
        0 => "0",
        1 => "1",
        2 => "2",
        3 => "3",
        4 => "4",
        5 => "5",
        6 => "6",
        7 => "7",
        8 => "8",
        _ => "9",
    }
}

/// Appends the decimal rendering of `n` to `s`.
fn push_decimal(s: &mut String, n: u32)
    ensures
        final(s)@ == old(s)@ + spec_decimal(n),
    decreases n,
{
    if n >= 10 {
        push_decimal(s, n / 10);
    }
    s.append(digit_str(n % 10));
    proof {
        if n < 10 {
            assert(old(s)@ + spec_decimal(n) =~= old(s)@ + seq![spec_digit_char(n)]);
        } else {
            assert(old(s)@ + spec_decimal(n) =~= (old(s)@ + spec_decimal(n / 10)) + seq![
                spec_digit_char(n % 10),
            ]);
        }
    }
}

impl App {
    /// The address the HTTP listener binds: the configured host, and the
    /// configured port narrowed to 16 bits.
    pub fn bind(&self) -> (r: (String, u16))
        ensures
            r.0@ == self.host@,
            r.1 == self.port as u16,
    {
        #[verifier::truncate]
        let port = self.port as u16;
        (self.host.clone(), port)
    }
}

impl Default for App {
    fn default() -> (r: Self)
        ensures
            r.title@ == "rust-backend"@,
            r.version@ == "0.3.0"@,
            r.host@ == "localhost"@,
            r.port == 6969u32,
            r.log_level == LogLevel::Info,
            r.workers == 1usize,
            r.database.database@ == "db"@,
            r.database.host@ == "localhost"@,
            r.database.port == 5432u32,
            r.database.user@ == "user"@,
            r.database.password@ == "password"@,
    {
        App {
            title: "rust-backend".to_owned(),
            version: "0.3.0".to_owned(),
            host: "localhost".to_owned(),
            port: 6969,
            log_level: LogLevel::Info,
            workers: 1,
            database: Database::default(),
        }
    }
}

/// The connection URL a database configuration denotes.
pub open spec fn spec_url(d: Database) -> Seq<char> {
    "postgresql://"@ + d.user@ + ":"@ + d.password@ + "@"@ + d.host@ + ":"@ + spec_decimal(d.port)
        + "/"@ + d.database@
}

impl Database {
    /// The connection URL: scheme, credentials, host, port and database
    /// name, exactly in the standard shape.
    pub fn url(self) -> (r: String)
        ensures
            r@ == spec_url(self),
    {
        let mut s = "postgresql://".to_owned();
        s.append(self.user.as_str());
        s.append(":");
        s.append(self.password.as_str());
        s.append("@");
        s.append(self.host.as_str());
        s.append(":");
        push_decimal(&mut s, self.port);
        s.append("/");
        s.append(self.database.as_str());
        proof {
            assert(s@ =~= spec_url(self));
        }
        s
    }
}

impl Default for Database {
    fn default() -> (r: Self)
        ensures
            r.database@ == "db"@,
            r.host@ == "localhost"@,
            r.port == 5432u32,
            r.user@ == "user"@,
            r.password@ == "password"@,
    {
        Database {
            database: "db".to_owned(),
            host: "localhost".to_owned(),
            port: 5432,
            user: "user".to_owned(),
            password: "password".to_owned(),
        }
    }
}

} // verus!
