//! What a transport module itself works with: the error codes it returns
//! to the host, its role constants, and the shapes of its configuration.

use vstd::prelude::*;

verus! {

/// The error codes a module returns across the ABI, as negative numbers;
/// `Success` is the zero of success.
#[derive(Debug, PartialEq, Eq, Copy, Clone, Structural)]
pub enum Error {
    Success,
    /// general error
    Unknown,
    /// invalid argument supplied to func call
    InvalidArgument,
    /// config file provided is invalid
    InvalidConfig,
    /// invalid file descriptor provided
    InvalidFd,
    /// invalid function called
    InvalidFunction,
    /// initializing twice
    DoubleInit,
    /// failing an I/O operation
    FailedIO,
    /// not initialized
    NotInitialized,
}

/// The code each error crosses the ABI as.
pub open spec fn error_code(e: Error) -> i32 {
    match e {
        Error::Success => 0i32,
        Error::Unknown => -1i32,
        Error::InvalidArgument => -2i32,
        Error::InvalidConfig => -3i32,
        Error::InvalidFd => -4i32,
        Error::InvalidFunction => -5i32,
        Error::DoubleInit => -6i32,
        Error::FailedIO => -7i32,
        Error::NotInitialized => -8i32,
    }
}

impl Error {
    /// The numeric form: zero for success, a distinct negative number for
    /// each failure.
    pub fn i32(&self) -> (r: i32)
        ensures
            r == error_code(*self),
            r == 0 <==> *self is Success,
            r <= 0,
    {
        match self {
            Error::Success => 0,
            Error::Unknown => -1,
            Error::InvalidArgument => -2,
            Error::InvalidConfig => -3,
            Error::InvalidFd => -4,
            Error::InvalidFunction => -5,
            Error::DoubleInit => -6,
            Error::FailedIO => -7,
            Error::NotInitialized => -8,
        }
    }
}

/// The role a v0 module is driven in, as the module sees it.
#[derive(Debug, Copy, Clone, PartialEq, Eq, Structural)]
pub enum Role {
    Unknown,
    Dialer,
    Listener,
    Relay,
}

/// The number each role crosses the ABI as.
pub open spec fn role_code(r: Role) -> i32 {
    match r {
        Role::Unknown => 0i32,
        Role::Dialer => 1i32,
        Role::Listener => 2i32,
        Role::Relay => 3i32,
    }
}

impl Role {
    /// The numeric form of the role.
    pub fn i32(&self) -> (r: i32)
        ensures
            r == role_code(*self),
    {
        match self {
            Role::Unknown => 0,
            Role::Dialer => 1,
            Role::Listener => 2,
            Role::Relay => 3,
        }
    }
}

/// The addresses a module reads from its configuration file.
#[derive(Debug)]
pub struct Config {
    pub remote_address: String,
    pub remote_port: u32,
    pub local_address: String,
    pub local_port: u32,
}

impl Config {
    /// The placeholder configuration used when no file was given.
    pub fn new() -> (r: Self)
        ensures
            r.remote_address@ == "example.com"@,
            r.remote_port == 8082u32,
            r.local_address@ == "127.0.0.1"@,
            r.local_port == 8080u32,
    {
        Config {
            remote_address: String::from_str("example.com"),
            remote_port: 8082,
            local_address: String::from_str("127.0.0.1"),
            local_port: 8080,
        }
    }
}

impl Clone for Config {
    fn clone(&self) -> (r: Self)
        ensures
            r == *self,
    {
        Config {
            remote_address: self.remote_address.clone(),
            remote_port: self.remote_port,
            local_address: self.local_address.clone(),
            local_port: self.local_port,
        }
    }
}

/// One endpoint a module asks the host to reach for it: the record behind
/// the guest-driven connect and listen calls.
#[derive(Debug)]
pub struct StreamConfigV1 {
    pub addr: String,
    pub port: u32,
    pub name: String,
}

impl StreamConfigV1 {
    pub fn init(addr: String, port: u32, name: String) -> (r: Self)
        ensures
            r == (StreamConfigV1 { addr: addr, port: port, name: name }),
    {
        StreamConfigV1 { addr, port, name }
    }
}

} // verus!
