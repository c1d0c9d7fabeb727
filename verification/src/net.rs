//! Descriptions of the sockets shared between host and module: named
//! listen and connect endpoints, as they appear in configuration files.

use vstd::prelude::*;
use vstd::string::StrSliceExecFns;

use crate::error::WaterError;

verus! {

/// Name assigned to a file descriptor.
///
/// Names are joined with `:` when exported to the module's environment,
/// so a name must not contain `:` itself.
#[derive(Debug)]
pub struct FileName(pub String);

impl View for FileName {
    type V = Seq<char>;

    open spec fn view(&self) -> Seq<char> {
        self.0@
    }
}

impl Clone for FileName {
    fn clone(&self) -> (r: Self)
        ensures
            r == *self,
    {
        FileName(self.0.clone())
    }
}

impl FileName {
    /// Accept a name exactly when it contains no `:`.
    pub fn try_from(name: String) -> (r: Result<FileName, WaterError>)
        ensures
            name@.contains(':') ==> r == Err::<FileName, WaterError>(WaterError::InvalidFileName),
            !name@.contains(':') ==> (r matches Ok(f) && f@ == name@),
    {
        let len = name.as_str().unicode_len();
        let mut i: usize = 0;
        while i < len
            invariant
                len == name@.len(),
                0 <= i <= len,
                forall|j: int| 0 <= j < i ==> name@[j] != ':',
            decreases len - i,
        {
            if name.as_str().get_char(i) == ':' {
                assert(name@.contains(':'));
                return Err(WaterError::InvalidFileName);
            }
            i = i + 1;
        }
        proof {
            assert(!name@.contains(':')) by {
                if name@.contains(':') {
                    let w = choose|w: int| 0 <= w < name@.len() && name@[w] == ':';
                    assert(name@[w] != ':');
                }
            }
        }
        Ok(FileName(name))
    }
}

/// The port a TCP endpoint gets when the file names none.
pub fn default_tcp_port() -> (r: u16)
    ensures
        r == 80u16,
{
    80
}

/// The port a TLS endpoint gets when the file names none.
pub fn default_tls_port() -> (r: u16)
    ensures
        r == 443u16,
{
    443
}

/// The address a listener binds when the file names none: every
/// interface.
pub fn default_addr() -> (r: String)
    ensures
        r@ == "::"@,
{
    String::from_str("::")
}

/// A listen socket to pre-open for the module.
#[derive(Debug)]
pub enum ListenFile {
    /// TLS listen socket
    Tls { name: FileName, addr: String, port: u16 },
    /// TCP listen socket
    Tcp { name: FileName, addr: String, port: u16 },
}

/// A stream socket to pre-open for the module.
#[derive(Debug)]
pub enum ConnectFile {
    /// TLS stream socket
    Tls { name: Option<FileName>, host: String, port: u16 },
    /// TCP stream socket
    Tcp { name: Option<FileName>, host: String, port: u16 },
}

/// Parameters for a pre-opened file descriptor.
#[derive(Debug)]
pub enum File {
    /// File descriptor of a listen socket
    Listen(ListenFile),
    /// File descriptor of a stream socket
    Connect(ConnectFile),
}

/// The name a descriptor is exported under: its assigned name, or for an
/// unnamed connect socket the host it reaches.
pub open spec fn spec_file_name(f: &File) -> Seq<char> {
    match f {
        File::Listen(ListenFile::Tls { name, .. }) => name@,
        File::Listen(ListenFile::Tcp { name, .. }) => name@,
        File::Connect(ConnectFile::Tls { name, host, .. }) => match name {
            Some(n) => n@,
            None => host@,
        },
        File::Connect(ConnectFile::Tcp { name, host, .. }) => match name {
            Some(n) => n@,
            None => host@,
        },
    }
}

impl File {
    /// Get the name for a file descriptor.
    pub fn name(&self) -> (r: &str)
        ensures
            r@ == spec_file_name(self),
    {
        match self {
            File::Listen(ListenFile::Tls { name, .. }) => name.0.as_str(),
            File::Listen(ListenFile::Tcp { name, .. }) => name.0.as_str(),
            File::Connect(ConnectFile::Tls { name, host, .. }) => match name {
                Some(n) => n.0.as_str(),
                None => host.as_str(),
            },
            File::Connect(ConnectFile::Tcp { name, host, .. }) => match name {
                Some(n) => n.0.as_str(),
                None => host.as_str(),
            },
        }
    }
}

} // verus!
