//! Commands as plain values.
//!
//! A command is a name followed by its ordered arguments, each one a byte
//! string. A scan factory is the immutable description of one paginated
//! enumeration command family: it rebuilds the full command for any cursor,
//! so the stream can issue page after page without keeping any other state.

use vstd::prelude::*;
use vstd::string::StringSliceAdditionalSpecFns;

verus! {

/// The bytes of an ASCII character sequence, one byte per character.
pub open spec fn ascii_seq(chars: Seq<char>) -> Seq<u8> {
    Seq::new(chars.len(), |i: int| chars[i] as u8)
}

/// Bytes of an ASCII string slice, pinned byte for byte to its characters.
pub fn ascii_bytes(s: &str) -> (v: Vec<u8>)
    requires
        vstd::string::is_ascii(s),
    ensures
        v@ == ascii_seq(s@),
{
    proof {
        vstd::string::is_ascii_spec_bytes(s);
        assert(s.spec_bytes() =~= ascii_seq(s@));
    }
    vstd::slice::slice_to_vec(s.as_bytes())
}

/// The decimal digits of `n`, most significant first, as ASCII bytes.
pub open spec fn dec_seq(n: nat) -> Seq<u8>
    decreases n,
{
    if n < 10 {
        seq![(48 + n) as u8]
    } else {
        dec_seq(n / 10).push((48 + n % 10) as u8)
    }
}

/// Formats a cursor value as its decimal ASCII digits.
pub fn u64_to_dec(n: u64) -> (v: Vec<u8>)
    ensures
        v@ == dec_seq(n as nat),
    decreases n,
{
    if n < 10 {
        let mut v: Vec<u8> = Vec::new();
        v.push(48 + (n as u8));
        proof {
            assert(v@ =~= dec_seq(n as nat));
        }
        v
    } else {
        let mut v = u64_to_dec(n / 10);
        v.push(48 + ((n % 10) as u8));
        proof {
            assert(v@ =~= dec_seq(n as nat));
        }
        v
    }
}

/// A copy of a byte-string argument, with its contents unchanged.
pub fn clone_bytes(b: &Vec<u8>) -> (r: Vec<u8>)
    ensures
        r@ == b@,
{
    let r = b.clone();
    proof {
        assert(r@ =~= b@);
    }
    r
}

/// An immutable description of one request: the command name followed by
/// its arguments, in the order they go on the wire.
pub struct Command {
    pub parts: Vec<Vec<u8>>,
}

impl View for Command {
    type V = Seq<Seq<u8>>;

    open spec fn view(&self) -> Seq<Seq<u8>> {
        self.parts.deep_view()
    }
}

/// The four paginated enumeration families: the whole keyspace, the fields
/// of a hash, the members of a set, and the members of a sorted set.
pub enum ScanKind {
    Keys,
    HashFields,
    SetMembers,
    SortedSetMembers,
}

/// A pure command factory for cursor iteration: fixed arguments (the kind,
/// an optional key, an optional match pattern) captured by value, so the
/// command can be rebuilt for every page.
pub struct ScanFactory {
    pub kind: ScanKind,
    pub key: Option<Vec<u8>>,
    pub pattern: Option<Vec<u8>>,
}

impl ScanFactory {
    /// The command name of this factory's enumeration family.
    pub open spec fn name_seq(self) -> Seq<u8> {
        match self.kind {
            ScanKind::Keys => ascii_seq("SCAN"@),
            ScanKind::HashFields => ascii_seq("HSCAN"@),
            ScanKind::SetMembers => ascii_seq("SSCAN"@),
            ScanKind::SortedSetMembers => ascii_seq("ZSCAN"@),
        }
    }

    /// The exact parts of the command this factory builds for `cursor`:
    /// the name, the key if the family has one, the cursor in decimal, and
    /// the match clause if a pattern was captured.
    pub open spec fn build_spec(self, cursor: u64) -> Seq<Seq<u8>> {
        seq![self.name_seq()] + (match self.key {
            Some(k) => seq![k@],
            None => Seq::<Seq<u8>>::empty(),
        }) + seq![dec_seq(cursor as nat)] + (match self.pattern {
            Some(p) => seq![ascii_seq("MATCH"@), p@],
            None => Seq::<Seq<u8>>::empty(),
        })
    }

    /// Iterate the whole keyspace.
    pub fn scan() -> (r: ScanFactory)
        ensures
            r == (ScanFactory { kind: ScanKind::Keys, key: None, pattern: None }),
    {
        ScanFactory { kind: ScanKind::Keys, key: None, pattern: None }
    }

    /// Iterate the keys matching a pattern.
    pub fn scan_match(pattern: Vec<u8>) -> (r: ScanFactory)
        ensures
            r == (ScanFactory { kind: ScanKind::Keys, key: None, pattern: Some(pattern) }),
    {
        ScanFactory { kind: ScanKind::Keys, key: None, pattern: Some(pattern) }
    }

    /// Iterate the fields of a hash, with their values.
    pub fn hscan(key: Vec<u8>) -> (r: ScanFactory)
        ensures
            r == (ScanFactory { kind: ScanKind::HashFields, key: Some(key), pattern: None }),
    {
        ScanFactory { kind: ScanKind::HashFields, key: Some(key), pattern: None }
    }

    /// Iterate the fields of a hash whose names match a pattern.
    pub fn hscan_match(key: Vec<u8>, pattern: Vec<u8>) -> (r: ScanFactory)
        ensures
            r == (ScanFactory {
                kind: ScanKind::HashFields,
                key: Some(key),
                pattern: Some(pattern),
            }),
    {
        ScanFactory { kind: ScanKind::HashFields, key: Some(key), pattern: Some(pattern) }
    }

    /// Iterate the members of a set.
    pub fn sscan(key: Vec<u8>) -> (r: ScanFactory)
        ensures
            r == (ScanFactory { kind: ScanKind::SetMembers, key: Some(key), pattern: None }),
    {
        ScanFactory { kind: ScanKind::SetMembers, key: Some(key), pattern: None }
    }

    /// Iterate the members of a set matching a pattern.
    pub fn sscan_match(key: Vec<u8>, pattern: Vec<u8>) -> (r: ScanFactory)
        ensures
            r == (ScanFactory {
                kind: ScanKind::SetMembers,
                key: Some(key),
                pattern: Some(pattern),
            }),
    {
        ScanFactory { kind: ScanKind::SetMembers, key: Some(key), pattern: Some(pattern) }
    }

    /// Iterate the members of a sorted set, with their scores.
    pub fn zscan(key: Vec<u8>) -> (r: ScanFactory)
        ensures
            r == (ScanFactory { kind: ScanKind::SortedSetMembers, key: Some(key), pattern: None }),
    {
        ScanFactory { kind: ScanKind::SortedSetMembers, key: Some(key), pattern: None }
    }

    /// Iterate the members of a sorted set matching a pattern.
    pub fn zscan_match(key: Vec<u8>, pattern: Vec<u8>) -> (r: ScanFactory)
        ensures
            r == (ScanFactory {
                kind: ScanKind::SortedSetMembers,
                key: Some(key),
                pattern: Some(pattern),
            }),
    {
        ScanFactory { kind: ScanKind::SortedSetMembers, key: Some(key), pattern: Some(pattern) }
    }

    /// The command name as bytes.
    fn name_vec(&self) -> (v: Vec<u8>)
        ensures
            v@ == self.name_seq(),
    {
        match self.kind {
            ScanKind::Keys => {
                proof {
                    reveal_strlit("SCAN");
                    assert(vstd::string::is_ascii("SCAN"));
                }
                ascii_bytes("SCAN")
            },
            ScanKind::HashFields => {
                proof {
                    reveal_strlit("HSCAN");
                    assert(vstd::string::is_ascii("HSCAN"));
                }
                ascii_bytes("HSCAN")
            },
            ScanKind::SetMembers => {
                proof {
                    reveal_strlit("SSCAN");
                    assert(vstd::string::is_ascii("SSCAN"));
                }
                ascii_bytes("SSCAN")
            },
            ScanKind::SortedSetMembers => {
                proof {
                    reveal_strlit("ZSCAN");
                    assert(vstd::string::is_ascii("ZSCAN"));
                }
                ascii_bytes("ZSCAN")
            },
        }
    }

    /// Builds the command for one page of the enumeration at `cursor`.
    pub fn build(&self, cursor: u64) -> (c: Command)
        ensures
            c@ == self.build_spec(cursor),
    {
        let mut parts: Vec<Vec<u8>> = Vec::new();
        parts.push(self.name_vec());
        match &self.key {
            Some(k) => parts.push(clone_bytes(k)),
            None => {},
        }
        parts.push(u64_to_dec(cursor));
        match &self.pattern {
            Some(p) => {
                proof {
                    reveal_strlit("MATCH");
                    assert(vstd::string::is_ascii("MATCH"));
                }
                parts.push(ascii_bytes("MATCH"));
                parts.push(clone_bytes(p));
            },
            None => {},
        }
        let c = Command { parts };
        proof {
            assert(c@ =~~= self.build_spec(cursor));
        }
        c
    }
}

/// The parts of a subscribe command for a list of channel names.
pub open spec fn subscribe_parts(channels: Seq<Seq<u8>>) -> Seq<Seq<u8>> {
    seq![ascii_seq("SUBSCRIBE"@)] + channels
}

/// The parts of a pattern-subscribe command for a list of patterns.
pub open spec fn psubscribe_parts(patterns: Seq<Seq<u8>>) -> Seq<Seq<u8>> {
    seq![ascii_seq("PSUBSCRIBE"@)] + patterns
}

/// The parts of the unconditional unsubscribe-from-all-channels command.
pub open spec fn unsubscribe_parts() -> Seq<Seq<u8>> {
    seq![ascii_seq("UNSUBSCRIBE"@)]
}

/// The parts of the unconditional unsubscribe-from-all-patterns command.
pub open spec fn punsubscribe_parts() -> Seq<Seq<u8>> {
    seq![ascii_seq("PUNSUBSCRIBE"@)]
}

/// Builds the subscribe command for a list of channel names.
pub fn subscribe_command(channels: Vec<Vec<u8>>) -> (c: Command)
    ensures
        c@ == subscribe_parts(channels.deep_view()),
{
    proof {
        reveal_strlit("SUBSCRIBE");
        assert(vstd::string::is_ascii("SUBSCRIBE"));
    }
    let mut parts: Vec<Vec<u8>> = Vec::new();
    parts.push(ascii_bytes("SUBSCRIBE"));
    let mut channels = channels;
    let ghost all = channels.deep_view();
    parts.append(&mut channels);
    let c = Command { parts };
    proof {
        assert(c@ =~~= subscribe_parts(all));
    }
    c
}

/// Builds the pattern-subscribe command for a list of patterns.
pub fn psubscribe_command(patterns: Vec<Vec<u8>>) -> (c: Command)
    ensures
        c@ == psubscribe_parts(patterns.deep_view()),
{
    proof {
        reveal_strlit("PSUBSCRIBE");
        assert(vstd::string::is_ascii("PSUBSCRIBE"));
    }
    let mut parts: Vec<Vec<u8>> = Vec::new();
    parts.push(ascii_bytes("PSUBSCRIBE"));
    let mut patterns = patterns;
    let ghost all = patterns.deep_view();
    parts.append(&mut patterns);
    let c = Command { parts };
    proof {
        assert(c@ =~~= psubscribe_parts(all));
    }
    c
}

/// Builds the unconditional unsubscribe-from-all-channels command.
pub fn unsubscribe_command() -> (c: Command)
    ensures
        c@ == unsubscribe_parts(),
{
    proof {
        reveal_strlit("UNSUBSCRIBE");
        assert(vstd::string::is_ascii("UNSUBSCRIBE"));
    }
    let mut parts: Vec<Vec<u8>> = Vec::new();
    parts.push(ascii_bytes("UNSUBSCRIBE"));
    let c = Command { parts };
    proof {
        assert(c@ =~~= unsubscribe_parts());
    }
    c
}

/// Builds the unconditional unsubscribe-from-all-patterns command.
pub fn punsubscribe_command() -> (c: Command)
    ensures
        c@ == punsubscribe_parts(),
{
    proof {
        reveal_strlit("PUNSUBSCRIBE");
        assert(vstd::string::is_ascii("PUNSUBSCRIBE"));
    }
    let mut parts: Vec<Vec<u8>> = Vec::new();
    parts.push(ascii_bytes("PUNSUBSCRIBE"));
    let c = Command { parts };
    proof {
        assert(c@ =~~= punsubscribe_parts());
    }
    c
}

} // verus!
