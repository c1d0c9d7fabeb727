//! The module-side tunnel: the byte transformation between the caller's
//! plaintext stream and the on-wire stream.
//!
//! A transport module pairs an [`Encoder`] and a [`Decoder`] around its two
//! connections.  The streams themselves are the caller's; the tunnel here
//! holds their descriptors and performs the transformations on byte
//! buffers the caller reads and writes.

use vstd::prelude::*;

use crate::error::WaterError;

verus! {

/// Addresses and switches a module reads from its configuration file.
#[derive(Debug)]
pub struct Config {
    pub remote_address: String,
    pub remote_port: u32,
    pub local_address: String,
    pub local_port: u32,
    /// Run without transforming: bytes pass through unchanged.
    pub bypass: bool,
}

impl Config {
    /// The placeholder configuration used when no file was given.
    pub fn new() -> (r: Self)
        ensures
            r.remote_address@ == "example.com"@,
            r.remote_port == 8082u32,
            r.local_address@ == "127.0.0.1"@,
            r.local_port == 8080u32,
            r.bypass == false,
    {
        Config {
            remote_address: String::from_str("example.com"),
            remote_port: 8082,
            local_address: String::from_str("127.0.0.1"),
            local_port: 8080,
            bypass: false,
        }
    }
}

impl Clone for Config {
    fn clone(&self) -> (r: Self)
        ensures
            r == *self,
    {
        Config {
            remote_address: self.remote_address.clone(),
            remote_port: self.remote_port,
            local_address: self.local_address.clone(),
            local_port: self.local_port,
            bypass: self.bypass,
        }
    }
}

/// Turns plaintext into the on-wire form: encryption, framing, padding —
/// whatever the transport calls for.
pub trait Encoder: Sized {
    /// Which byte sequences this encoder accepts.
    spec fn spec_encode_ok(&self, input: Seq<u8>) -> bool;

    /// What this encoder does to a byte sequence it accepts.
    spec fn spec_encode(&self, input: Seq<u8>) -> Seq<u8>;

    /// Encode `input` into `output`, replacing its contents, and return
    /// how many bytes the encoded form has.
    fn encode(&self, input: &Vec<u8>, output: &mut Vec<u8>) -> (r: Result<usize, WaterError>)
        ensures
            r is Ok <==> self.spec_encode_ok(input@),
            r matches Ok(n) ==> final(output)@ == self.spec_encode(input@)
                && n == final(output)@.len(),
    ;
}

/// Turns the on-wire form back into plaintext.
pub trait Decoder: Sized {
    /// Which byte sequences this decoder accepts.
    spec fn spec_decode_ok(&self, input: Seq<u8>) -> bool;

    /// What this decoder does to a byte sequence it accepts.
    spec fn spec_decode(&self, input: Seq<u8>) -> Seq<u8>;

    /// Decode `input` into `output`, replacing its contents, and return
    /// how many bytes the decoded form has.
    fn decode(&self, input: &Vec<u8>, output: &mut Vec<u8>) -> (r: Result<usize, WaterError>)
        ensures
            r is Ok <==> self.spec_decode_ok(input@),
            r matches Ok(n) ==> final(output)@ == self.spec_decode(input@)
                && n == final(output)@.len(),
    ;
}

/// The identity encoder: a straight copy from input to output.
#[derive(Debug)]
pub struct DefaultEncoder;

impl Encoder for DefaultEncoder {
    open spec fn spec_encode_ok(&self, input: Seq<u8>) -> bool {
        true
    }

    open spec fn spec_encode(&self, input: Seq<u8>) -> Seq<u8> {
        input
    }

    fn encode(&self, input: &Vec<u8>, output: &mut Vec<u8>) -> (r: Result<usize, WaterError>) {
        copy_bytes(input, output);
        Ok(input.len())
    }
}

/// The identity decoder: a straight copy from input to output.
#[derive(Debug)]
pub struct DefaultDecoder;

impl Decoder for DefaultDecoder {
    open spec fn spec_decode_ok(&self, input: Seq<u8>) -> bool {
        true
    }

    open spec fn spec_decode(&self, input: Seq<u8>) -> Seq<u8> {
        input
    }

    fn decode(&self, input: &Vec<u8>, output: &mut Vec<u8>) -> (r: Result<usize, WaterError>) {
        copy_bytes(input, output);
        Ok(input.len())
    }
}

/// Replace `output`'s contents with a copy of `input`.
fn copy_bytes(input: &Vec<u8>, output: &mut Vec<u8>)
    ensures
        final(output)@ == input@,
{
    output.clear();
    let mut i: usize = 0;
    while i < input.len()
        invariant
            0 <= i <= input@.len(),
            output@ == input@.subrange(0, i as int),
        decreases input@.len() - i,
    {
        output.push(input[i]);
        proof {
            assert(output@ =~= input@.subrange(0, i + 1));
        }
        i = i + 1;
    }
    proof {
        assert(output@ =~= input@);
    }
}

/// A tunnel: the two connections (by descriptor) and the transformations
/// between them.  The plaintext side faces the caller, the ciphertext side
/// faces the wire.
#[derive(Debug)]
pub struct Tunnel<E, D> {
    pub plaintext_conn: Option<i32>,
    pub ciphertext_conn: Option<i32>,
    pub encoder: Option<E>,
    pub decoder: Option<D>,
    pub config: Config,
}

impl<E: Encoder, D: Decoder> Tunnel<E, D> {
    /// A tunnel with no connections and no transformations set.
    pub fn new() -> (r: Self)
        ensures
            r.plaintext_conn is None,
            r.ciphertext_conn is None,
            r.encoder is None,
            r.decoder is None,
            r.config.remote_address@ == "example.com"@,
            r.config.remote_port == 8082u32,
            r.config.local_address@ == "127.0.0.1"@,
            r.config.local_port == 8080u32,
            r.config.bypass == false,
    {
        Tunnel {
            plaintext_conn: None,
            ciphertext_conn: None,
            encoder: None,
            decoder: None,
            config: Config::new(),
        }
    }

    pub fn set_encoder(self, encoder: E) -> (r: Self)
        ensures
            r == (Tunnel { encoder: Some(encoder), ..self }),
    {
        Tunnel { encoder: Some(encoder), ..self }
    }

    pub fn unset_encoder(&mut self)
        ensures
            *final(self) == (Tunnel { encoder: None::<E>, ..*old(self) }),
    {
        self.encoder = None;
    }

    pub fn set_decoder(self, decoder: D) -> (r: Self)
        ensures
            r == (Tunnel { decoder: Some(decoder), ..self }),
    {
        Tunnel { decoder: Some(decoder), ..self }
    }

    pub fn unset_decoder(&mut self)
        ensures
            *final(self) == (Tunnel { decoder: None::<D>, ..*old(self) }),
    {
        self.decoder = None;
    }

    /// Attach the caller-facing connection; a negative descriptor is
    /// refused.
    pub fn set_inbound(self, fd: i32) -> (r: Result<Self, WaterError>)
        ensures
            fd < 0 ==> r == Err::<Self, WaterError>(WaterError::InvalidFd),
            fd >= 0 ==> r == Ok::<Self, WaterError>(
                Tunnel { plaintext_conn: Some(fd), ..self },
            ),
    {
        if fd < 0 {
            return Err(WaterError::InvalidFd);
        }
        Ok(Tunnel { plaintext_conn: Some(fd), ..self })
    }

    /// Attach the wire-facing connection.  A negative descriptor leaves
    /// the tunnel unchanged but is not an error.
    pub fn set_outbound(self, fd: i32) -> (r: Result<Self, WaterError>)
        ensures
            fd < 0 ==> r == Ok::<Self, WaterError>(self),
            fd >= 0 ==> r == Ok::<Self, WaterError>(
                Tunnel { ciphertext_conn: Some(fd), ..self },
            ),
    {
        if fd < 0 {
            return Ok(self);
        }
        Ok(Tunnel { ciphertext_conn: Some(fd), ..self })
    }

    /// One inbound transfer: decode what arrived on the wire; the result
    /// is what the caller must write to the plaintext side.  Both
    /// connections and the decoder must be in place.
    pub fn _read_from_outbound(&mut self, incoming: &Vec<u8>) -> (r: Result<Vec<u8>, WaterError>)
        ensures
            *final(self) == *old(self),
            old(self).ciphertext_conn is None ==> r == Err::<Vec<u8>, WaterError>(
                WaterError::NoConnection,
            ),
            old(self).ciphertext_conn is Some && old(self).decoder is None ==> r == Err::<
                Vec<u8>,
                WaterError,
            >(WaterError::NoDecoder),
            (match old(self).decoder {
                Some(d) => old(self).ciphertext_conn is Some ==> (if !d.spec_decode_ok(
                    incoming@,
                ) {
                    r is Err
                } else {
                    match old(self).plaintext_conn {
                        None => r == Err::<Vec<u8>, WaterError>(WaterError::NoConnection),
                        Some(_) => (r matches Ok(decoded) && decoded@ == d.spec_decode(incoming@)),
                    }
                }),
                None => true,
            }),
    {
        if self.ciphertext_conn.is_none() {
            return Err(WaterError::NoConnection);
        }
        match &self.decoder {
            Some(decoder) => {
                let mut decoded: Vec<u8> = Vec::new();
                let _n = decoder.decode(incoming, &mut decoded)?;
                if self.plaintext_conn.is_none() {
                    return Err(WaterError::NoConnection);
                }
                Ok(decoded)
            },
            None => Err(WaterError::NoDecoder),
        }
    }

    /// One outbound transfer: encode what the caller handed in; the
    /// result is what the caller must write to the wire side.  Both
    /// connections and the encoder must be in place.
    pub fn _write_to_outbound(&mut self, outgoing: &Vec<u8>) -> (r: Result<Vec<u8>, WaterError>)
        ensures
            *final(self) == *old(self),
            old(self).plaintext_conn is None ==> r == Err::<Vec<u8>, WaterError>(
                WaterError::NoConnection,
            ),
            old(self).plaintext_conn is Some && old(self).encoder is None ==> r == Err::<
                Vec<u8>,
                WaterError,
            >(WaterError::NoEncoder),
            (match old(self).encoder {
                Some(e) => old(self).plaintext_conn is Some ==> (if !e.spec_encode_ok(
                    outgoing@,
                ) {
                    r is Err
                } else {
                    match old(self).ciphertext_conn {
                        None => r == Err::<Vec<u8>, WaterError>(WaterError::NoConnection),
                        Some(_) => (r matches Ok(encoded) && encoded@ == e.spec_encode(outgoing@)),
                    }
                }),
                None => true,
            }),
    {
        if self.plaintext_conn.is_none() {
            return Err(WaterError::NoConnection);
        }
        match &self.encoder {
            Some(encoder) => {
                let mut encoded: Vec<u8> = Vec::new();
                let _n = encoder.encode(outgoing, &mut encoded)?;
                if self.ciphertext_conn.is_none() {
                    return Err(WaterError::NoConnection);
                }
                Ok(encoded)
            },
            None => Err(WaterError::NoEncoder),
        }
    }
}

/// Byte transparency of the identity transform: whatever byte sequence
/// the host writes reaches the peer unchanged, and whatever the peer
/// sends is read back unchanged; in particular decoding what was encoded
/// gives back exactly the bytes that went in.
pub proof fn lemma_identity_byte_transparency(e: DefaultEncoder, d: DefaultDecoder, b: Seq<u8>)
    ensures
        e.spec_encode(b) == b,
        d.spec_decode(b) == b,
        d.spec_decode(e.spec_encode(b)) == b,
{
}

} // verus!
