use crate::errors::BTCP2PError;
use vstd::prelude::*;

verus! {

/// The chain a message belongs to, told apart by the four magic bytes that
/// open every message.
#[derive(Debug, Clone, Copy, PartialEq, Eq, Structural)]
pub enum Network {
    /// Main network, default port 8333.
    MainNet,
    /// Test network, default port 18333.
    TestNet,
    /// Regression test network, default port 18444.
    RegTest,
}

impl Network {
    /// The magic bytes of this network, in wire order.
    pub open spec fn magic(self) -> Seq<u8> {
        match self {
            Network::MainNet => seq![0xf9u8, 0xbeu8, 0xb4u8, 0xd9u8],
            Network::TestNet => seq![0x0bu8, 0x11u8, 0x09u8, 0x07u8],
            Network::RegTest => seq![0xfau8, 0xbfu8, 0xb5u8, 0xdau8],
        }
    }

    /// The magic bytes of `network`.
    pub fn to_bytes(network: Network) -> (r: [u8; 4])
        ensures
            r@ == network.magic(),
    {
        let r: [u8; 4] = match network {
            Network::MainNet => [0xf9, 0xbe, 0xb4, 0xd9],
            Network::TestNet => [0x0b, 0x11, 0x09, 0x07],
            Network::RegTest => [0xfa, 0xbf, 0xb5, 0xda],
        };
        assert(r@ =~= network.magic());
        r
    }

    /// The network whose magic bytes are exactly `bytes`; any other sequence,
    /// of any length, is an unknown network.
    pub fn from_bytes(bytes: &[u8]) -> (r: Result<Network, BTCP2PError>)
        ensures
            r == network_of_magic(bytes@),
    {
        if bytes.len() != 4 {
            return Err(BTCP2PError::UnknownNetwork);
        }
        let (b0, b1, b2, b3) = (bytes[0], bytes[1], bytes[2], bytes[3]);
        let r = if b0 == 0xf9 && b1 == 0xbe && b2 == 0xb4 && b3 == 0xd9 {
            Ok(Network::MainNet)
        } else if b0 == 0x0b && b1 == 0x11 && b2 == 0x09 && b3 == 0x07 {
            Ok(Network::TestNet)
        } else if b0 == 0xfa && b1 == 0xbf && b2 == 0xb5 && b3 == 0xda {
            Ok(Network::RegTest)
        } else {
            Err(BTCP2PError::UnknownNetwork)
        };
        proof {
            if r is Ok {
                assert(bytes@ =~= r->Ok_0.magic());
            }
        }
        r
    }
}

/// What decoding `bytes` as magic bytes gives: the network with exactly that
/// magic, or `UnknownNetwork`.
pub open spec fn network_of_magic(bytes: Seq<u8>) -> Result<Network, BTCP2PError> {
    if bytes == Network::MainNet.magic() {
        Ok(Network::MainNet)
    } else if bytes == Network::TestNet.magic() {
        Ok(Network::TestNet)
    } else if bytes == Network::RegTest.magic() {
        Ok(Network::RegTest)
    } else {
        Err(BTCP2PError::UnknownNetwork)
    }
}

/// Decoding the magic bytes of a network gives that network back.
pub proof fn lemma_network_round_trip(network: Network)
    ensures
        network_of_magic(network.magic()) == Ok::<Network, BTCP2PError>(network),
{
    let m = network.magic();
    assert(Network::MainNet.magic()[0] != Network::TestNet.magic()[0]);
    assert(Network::MainNet.magic()[0] != Network::RegTest.magic()[0]);
    assert(Network::TestNet.magic()[0] != Network::RegTest.magic()[0]);
    assert(m[0] == network.magic()[0]);
}

} // verus!
