use vstd::prelude::*;

verus! {

/// The read half of a split transport: over an encrypted or a plain socket.
pub enum RedisStream<Tls, Tcp> {
    Tls(Tls),
    Tcp(Tcp),
}

/// The write half of a split transport: over an encrypted or a plain socket.
pub enum RedisSink<Tls, Tcp> {
    Tls(Tls),
    Tcp(Tcp),
}

impl<Tls, Tcp> RedisStream<Tls, Tcp> {
    /// Whether the half belongs to an encrypted transport.
    pub fn is_tls(&self) -> (res: bool)
        ensures
            res == (self is Tls),
    {
        match self {
            RedisStream::Tls(_) => true,
            RedisStream::Tcp(_) => false,
        }
    }
}

impl<Tls, Tcp> RedisSink<Tls, Tcp> {
    /// Whether the half belongs to an encrypted transport.
    pub fn is_tls(&self) -> (res: bool)
        ensures
            res == (self is Tls),
    {
        match self {
            RedisSink::Tls(_) => true,
            RedisSink::Tcp(_) => false,
        }
    }
}

} // verus!
