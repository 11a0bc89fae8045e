//! The tag that names the kind of an RPC.

use vstd::prelude::*;

use crate::error::ArchiveError;

verus! {

/// Types of RPC requests in the Raft protocol.
///
/// Each member has a fixed ordinal, in declaration order from zero. The
/// fixed-layout form of a tag is the single byte holding that ordinal; the
/// structured form is the ordinal or the member's name.
#[derive(Debug, Clone, Copy, PartialEq, Eq, Hash, Structural)]
pub enum RPCTypes {
    /// Vote request RPC.
    Vote,
    /// AppendEntries request RPC.
    AppendEntries,
    /// InstallSnapshot request RPC.
    InstallSnapshot,
    /// TransferLeader request RPC.
    TransferLeader,
}

impl RPCTypes {
    /// Width in bytes of the fixed-layout form.
    pub const ARCHIVED_LEN: usize = 1;

    /// The ordinal of a member.
    pub open spec fn spec_ordinal(self) -> u8 {
        match self {
            RPCTypes::Vote => 0,
            RPCTypes::AppendEntries => 1,
            RPCTypes::InstallSnapshot => 2,
            RPCTypes::TransferLeader => 3,
        }
    }

    /// The member with a given ordinal, if there is one.
    pub open spec fn spec_from_ordinal(ordinal: u8) -> Option<RPCTypes> {
        if ordinal == 0 {
            Some(RPCTypes::Vote)
        } else if ordinal == 1 {
            Some(RPCTypes::AppendEntries)
        } else if ordinal == 2 {
            Some(RPCTypes::InstallSnapshot)
        } else if ordinal == 3 {
            Some(RPCTypes::TransferLeader)
        } else {
            None
        }
    }

    /// The name of a member, as it is displayed.
    pub open spec fn spec_name(self) -> Seq<char> {
        match self {
            RPCTypes::Vote => "Vote"@,
            RPCTypes::AppendEntries => "AppendEntries"@,
            RPCTypes::InstallSnapshot => "InstallSnapshot"@,
            RPCTypes::TransferLeader => "TransferLeader"@,
        }
    }

    /// The member with a given name, if there is one.
    pub open spec fn spec_from_name(name: Seq<char>) -> Option<RPCTypes> {
        if name == "Vote"@ {
            Some(RPCTypes::Vote)
        } else if name == "AppendEntries"@ {
            Some(RPCTypes::AppendEntries)
        } else if name == "InstallSnapshot"@ {
            Some(RPCTypes::InstallSnapshot)
        } else if name == "TransferLeader"@ {
            Some(RPCTypes::TransferLeader)
        } else {
            None
        }
    }

    /// The fixed-layout form of a member: one byte, its ordinal.
    pub open spec fn spec_archive(self) -> Seq<u8> {
        seq![self.spec_ordinal()]
    }

    /// What decoding a buffer as a fixed-layout tag yields.
    pub open spec fn spec_from_archive(buf: Seq<u8>) -> Result<RPCTypes, ArchiveError> {
        if buf.len() != 1 {
            Err(ArchiveError::TruncatedBuffer { expected: 1, found: buf.len() as usize })
        } else {
            match Self::spec_from_ordinal(buf[0]) {
                Some(t) => Ok(t),
                None => Err(ArchiveError::MalformedBuffer { offset: 0, len: 1 }),
            }
        }
    }

    /// The ordinal of this member.
    pub fn ordinal(&self) -> (ordinal: u8)
        ensures
            ordinal == self.spec_ordinal(),
            ordinal < 4,
            Self::spec_from_ordinal(ordinal) == Some(*self),
    {
        match self {
            RPCTypes::Vote => 0,
            RPCTypes::AppendEntries => 1,
            RPCTypes::InstallSnapshot => 2,
            RPCTypes::TransferLeader => 3,
        }
    }

    /// The member with the given ordinal. An ordinal above three names no
    /// member and is reported as a malformed one-byte field.
    pub fn from_ordinal(ordinal: u8) -> (r: Result<RPCTypes, ArchiveError>)
        ensures
            r == (match Self::spec_from_ordinal(ordinal) {
                Some(t) => Ok::<RPCTypes, ArchiveError>(t),
                None => Err(ArchiveError::MalformedBuffer { offset: 0, len: 1 }),
            }),
            r is Ok <==> ordinal < 4,
    {
        if ordinal == 0 {
            Ok(RPCTypes::Vote)
        } else if ordinal == 1 {
            Ok(RPCTypes::AppendEntries)
        } else if ordinal == 2 {
            Ok(RPCTypes::InstallSnapshot)
        } else if ordinal == 3 {
            Ok(RPCTypes::TransferLeader)
        } else {
            Err(ArchiveError::MalformedBuffer { offset: 0, len: 1 })
        }
    }

    /// The name of this member.
    pub fn name(&self) -> (name: &'static str)
        ensures
            name@ == self.spec_name(),
            Self::spec_from_name(name@) == Some(*self),
    {
        proof {
            lemma_name_round_trip(*self);
        }
        match self {
            RPCTypes::Vote => "Vote",
            RPCTypes::AppendEntries => "AppendEntries",
            RPCTypes::InstallSnapshot => "InstallSnapshot",
            RPCTypes::TransferLeader => "TransferLeader",
        }
    }

    /// The text that displays this member: its name.
    pub fn display(&self) -> (text: String)
        ensures
            text@ == self.spec_name(),
            Self::spec_from_name(text@) == Some(*self),
    {
        self.name().to_owned()
    }

    /// The member with the given name, or `None` where no member has it.
    pub fn from_name(name: &str) -> (r: Option<RPCTypes>)
        ensures
            r == Self::spec_from_name(name@),
    {
        let given: String = name.to_owned();
        if given == "Vote".to_owned() {
            Some(RPCTypes::Vote)
        } else if given == "AppendEntries".to_owned() {
            Some(RPCTypes::AppendEntries)
        } else if given == "InstallSnapshot".to_owned() {
            Some(RPCTypes::InstallSnapshot)
        } else if given == "TransferLeader".to_owned() {
            Some(RPCTypes::TransferLeader)
        } else {
            None
        }
    }

    /// Encodes this member in the fixed layout.
    pub fn archive(&self) -> (bytes: Vec<u8>)
        ensures
            bytes@ == self.spec_archive(),
            bytes@.len() == Self::ARCHIVED_LEN,
            Self::spec_from_archive(bytes@) == Ok::<RPCTypes, ArchiveError>(*self),
    {
        let mut bytes: Vec<u8> = Vec::new();
        bytes.push(self.ordinal());
        bytes
    }

    /// Checks that a buffer holds a fixed-layout tag, without decoding it.
    ///
    /// The length is checked before the byte is looked at.
    pub fn check_bytes(buf: &[u8]) -> (r: Result<(), ArchiveError>)
        ensures
            r == (match Self::spec_from_archive(buf@) {
                Ok(_) => Ok::<(), ArchiveError>(()),
                Err(e) => Err(e),
            }),
    {
        match Self::from_archive(buf) {
            Ok(_) => Ok(()),
            Err(e) => Err(e),
        }
    }

    /// Decodes a fixed-layout tag.
    ///
    /// The layout asks for exactly one byte: a buffer of another length is
    /// refused as truncated, before any byte is looked at. A byte above three
    /// is a malformed ordinal.
    pub fn from_archive(buf: &[u8]) -> (r: Result<RPCTypes, ArchiveError>)
        ensures
            r == Self::spec_from_archive(buf@),
    {
        let n: usize = buf.len();
        if n != Self::ARCHIVED_LEN {
            Err(ArchiveError::TruncatedBuffer { expected: Self::ARCHIVED_LEN, found: n })
        } else {
            Self::from_ordinal(buf[0])
        }
    }
}

/// Decoding the ordinal of a member gives that member back.
pub proof fn lemma_ordinal_round_trip(t: RPCTypes)
    ensures
        RPCTypes::spec_from_ordinal(t.spec_ordinal()) == Some(t),
{
}

/// An ordinal is that of some member exactly when it is below four, and then
/// it is the ordinal of the member it decodes to.
pub proof fn lemma_from_ordinal_total(ordinal: u8)
    ensures
        RPCTypes::spec_from_ordinal(ordinal) is Some <==> ordinal < 4,
        RPCTypes::spec_from_ordinal(ordinal) matches Some(t) ==> t.spec_ordinal() == ordinal,
{
}

/// Decoding the name of a member gives that member back.
pub proof fn lemma_name_round_trip(t: RPCTypes)
    ensures
        RPCTypes::spec_from_name(t.spec_name()) == Some(t),
{
    reveal_strlit("Vote");
    reveal_strlit("AppendEntries");
    reveal_strlit("InstallSnapshot");
    reveal_strlit("TransferLeader");
    assert("Vote"@.len() == 4);
    assert("AppendEntries"@.len() == 13);
    assert("InstallSnapshot"@.len() == 15);
    assert("TransferLeader"@.len() == 14);
}

/// Decoding the fixed-layout form of a member gives that member back.
pub proof fn lemma_archive_round_trip(t: RPCTypes)
    ensures
        RPCTypes::spec_from_archive(t.spec_archive()) == Ok::<RPCTypes, ArchiveError>(t),
{
}

/// A one-byte buffer that holds four or more is refused as malformed at its
/// only byte.
pub proof fn lemma_archive_rejects_unknown_ordinal(b: u8)
    requires
        b >= 4,
    ensures
        RPCTypes::spec_from_archive(seq![b]) == Err::<RPCTypes, ArchiveError>(
            ArchiveError::MalformedBuffer { offset: 0, len: 1 },
        ),
{
}

} // verus!
