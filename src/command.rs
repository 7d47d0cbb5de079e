use crate::errors::BTCP2PError;
use vstd::prelude::*;

verus! {

/// Width of the command field in a message header.
pub const COMMAND_NAME_SIZE: usize = 12;

/// The type of a message, named on the wire by a short ASCII string.
#[derive(Debug, Clone, Copy, PartialEq, Eq, Structural)]
pub enum Command {
    Version,
    VerAck,
    Ping,
    Pong,
}

impl Command {
    /// The ASCII name of this command, without padding: "version", "verack",
    /// "ping" or "pong".
    pub open spec fn name(self) -> Seq<u8> {
        match self {
            Command::Version => seq![0x76u8, 0x65u8, 0x72u8, 0x73u8, 0x69u8, 0x6fu8, 0x6eu8],
            Command::VerAck => seq![0x76u8, 0x65u8, 0x72u8, 0x61u8, 0x63u8, 0x6bu8],
            Command::Ping => seq![0x70u8, 0x69u8, 0x6eu8, 0x67u8],
            Command::Pong => seq![0x70u8, 0x6fu8, 0x6eu8, 0x67u8],
        }
    }

    /// The ASCII name of this command, unpadded: padding to the header's
    /// field width is the framer's work.
    pub fn to_bytes(&self) -> (r: Result<Vec<u8>, BTCP2PError>)
        ensures
            r matches Ok(b) && b@ == self.name(),
    {
        Ok(self.name_bytes())
    }

    /// The ASCII name of this command, as a vector.
    pub(crate) fn name_bytes(&self) -> (r: Vec<u8>)
        ensures
            r@ == self.name(),
    {
        let mut r: Vec<u8> = Vec::new();
        match self {
            Command::Version => {
                r.push(0x76);
                r.push(0x65);
                r.push(0x72);
                r.push(0x73);
                r.push(0x69);
                r.push(0x6f);
                r.push(0x6e);
            },
            Command::VerAck => {
                r.push(0x76);
                r.push(0x65);
                r.push(0x72);
                r.push(0x61);
                r.push(0x63);
                r.push(0x6b);
            },
            Command::Ping => {
                r.push(0x70);
                r.push(0x69);
                r.push(0x6e);
                r.push(0x67);
            },
            Command::Pong => {
                r.push(0x70);
                r.push(0x6f);
                r.push(0x6e);
                r.push(0x67);
            },
        }
        assert(r@ =~= self.name());
        r
    }

    /// The command that `bytes` names once its trailing NUL bytes are
    /// stripped; any other name is an `InvalidCommand`.
    pub fn from_bytes(bytes: &[u8]) -> (r: Result<Command, BTCP2PError>)
        ensures
            r == command_of_field(bytes@),
    {
        let mut end: usize = bytes.len();
        assert(bytes@.subrange(0, end as int) =~= bytes@);
        while end > 0 && bytes[end - 1] == 0
            invariant
                end <= bytes@.len(),
                strip_nuls(bytes@) == strip_nuls(bytes@.subrange(0, end as int)),
            decreases end,
        {
            assert(bytes@.subrange(0, end as int).drop_last() =~= bytes@.subrange(0, end - 1));
            end = end - 1;
        }
        assert(strip_nuls(bytes@) == bytes@.subrange(0, end as int));
        let candidates: [Command; 4] = [Command::Version, Command::VerAck, Command::Ping, Command::Pong];
        let mut i: usize = 0;
        while i < 4
            invariant
                i <= 4,
                end <= bytes@.len(),
                strip_nuls(bytes@) == bytes@.subrange(0, end as int),
                candidates@ == seq![Command::Version, Command::VerAck, Command::Ping, Command::Pong],
                forall|j: int| 0 <= j < i ==> candidates@[j].name() != strip_nuls(bytes@),
            decreases 4 - i,
        {
            let c = candidates[i];
            let name = c.name_bytes();
            if prefix_equals(bytes, end, &name) {
                proof {
                    lemma_names_distinct();
                }
                return Ok(c);
            }
            i = i + 1;
        }
        assert(forall|c: Command| c.name() != strip_nuls(bytes@)) by {
            assert forall|c: Command| c.name() != strip_nuls(bytes@) by {
                match c {
                    Command::Version => assert(candidates@[0] == c),
                    Command::VerAck => assert(candidates@[1] == c),
                    Command::Ping => assert(candidates@[2] == c),
                    Command::Pong => assert(candidates@[3] == c),
                }
            }
        }
        Err(BTCP2PError::InvalidCommand)
    }
}

/// Whether the first `end` bytes of `bytes` are exactly `name`.
fn prefix_equals(bytes: &[u8], end: usize, name: &Vec<u8>) -> (r: bool)
    requires
        end <= bytes@.len(),
    ensures
        r == (bytes@.subrange(0, end as int) == name@),
{
    if end != name.len() {
        return false;
    }
    let mut i: usize = 0;
    while i < end
        invariant
            i <= end,
            end == name@.len(),
            end <= bytes@.len(),
            forall|j: int| 0 <= j < i ==> bytes@[j] == name@[j],
        decreases end - i,
    {
        if bytes[i] != name[i] {
            return false;
        }
        i = i + 1;
    }
    assert(bytes@.subrange(0, end as int) =~= name@);
    true
}

/// `bytes` without its trailing NUL bytes.
pub open spec fn strip_nuls(bytes: Seq<u8>) -> Seq<u8>
    decreases bytes.len(),
{
    if bytes.len() > 0 && bytes.last() == 0 {
        strip_nuls(bytes.drop_last())
    } else {
        bytes
    }
}

/// The command whose name is exactly `name`, if any.
pub open spec fn command_named(name: Seq<u8>) -> Option<Command> {
    if name == Command::Version.name() {
        Some(Command::Version)
    } else if name == Command::VerAck.name() {
        Some(Command::VerAck)
    } else if name == Command::Ping.name() {
        Some(Command::Ping)
    } else if name == Command::Pong.name() {
        Some(Command::Pong)
    } else {
        None
    }
}

/// What decoding a command field gives: the command named by the field
/// without its trailing NUL bytes, or `InvalidCommand`.
pub open spec fn command_of_field(field: Seq<u8>) -> Result<Command, BTCP2PError> {
    match command_named(strip_nuls(field)) {
        Some(c) => Ok(c),
        None => Err(BTCP2PError::InvalidCommand),
    }
}

/// The header's command field: the name followed by NUL bytes up to the
/// field's width.
pub open spec fn command_field(c: Command) -> Seq<u8> {
    c.name() + Seq::new((COMMAND_NAME_SIZE - c.name().len()) as nat, |i: int| 0u8)
}

proof fn lemma_names_distinct()
    ensures
        forall|a: Command, b: Command| a.name() == b.name() ==> a == b,
{
    assert forall|a: Command, b: Command| a.name() == b.name() implies a == b by {
        if a != b {
            let (na, nb) = (a.name(), b.name());
            if na.len() == nb.len() {
                assert(na[1] != nb[1] || na[3] != nb[3]);
            }
        }
    }
}

proof fn lemma_strip_padding(s: Seq<u8>, k: nat)
    requires
        s.len() > 0,
        s.last() != 0,
    ensures
        strip_nuls(s + Seq::new(k, |i: int| 0u8)) == s,
    decreases k,
{
    let padded = s + Seq::new(k, |i: int| 0u8);
    if k == 0 {
        assert(padded =~= s);
    } else {
        assert(padded.drop_last() =~= s + Seq::new((k - 1) as nat, |i: int| 0u8));
        lemma_strip_padding(s, (k - 1) as nat);
    }
}

/// Decoding a command's padded header field, or its bare name, gives that
/// command back.
pub proof fn lemma_command_round_trip(c: Command)
    ensures
        command_field(c).len() == COMMAND_NAME_SIZE,
        command_of_field(command_field(c)) == Ok::<Command, BTCP2PError>(c),
        command_of_field(c.name()) == Ok::<Command, BTCP2PError>(c),
{
    lemma_names_distinct();
    lemma_strip_padding(c.name(), (COMMAND_NAME_SIZE - c.name().len()) as nat);
    lemma_strip_padding(c.name(), 0);
    assert(c.name() + Seq::new(0, |i: int| 0u8) =~= c.name());
}

} // verus!
