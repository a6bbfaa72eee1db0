//! The line codec: every request and every response travels as one line of
//! text closed by a line feed.

use vstd::prelude::*;
use vstd::std_specs::iter::IteratorSpec;
use vstd::string::StrSliceExecFns;
use vstd::string::StringExecFns;

verus! {

broadcast use vstd::string::group_string_axioms;

/// The line terminator, as text.
pub const LINE_TERMINATOR: &'static str = "\n";

/// Whether `text` can serve as a command identifier: it is not empty and
/// holds neither a line feed nor a carriage return, so that a line reader
/// hands it back unchanged.
pub open spec fn is_command_id(text: Seq<char>) -> bool {
    &&& text.len() > 0
    &&& forall|i: int| 0 <= i < text.len() ==> text[i] != '\n' && text[i] != '\r'
}

/// The wire form of `text`: the text followed by one line feed.
pub open spec fn encode_spec(text: Seq<char>) -> Seq<char> {
    text.push('\n')
}

/// Whether `n` is where the first line of `text` ends: the position of the
/// first line feed, or the length of `text` when it holds none.
pub open spec fn is_line_end(text: Seq<char>, n: int) -> bool {
    &&& 0 <= n <= text.len()
    &&& forall|i: int| 0 <= i < n ==> text[i] != '\n'
    &&& n < text.len() ==> text[n] == '\n'
}

/// Where the first line of `text` ends.
pub open spec fn line_end(text: Seq<char>) -> int {
    choose|n: int| is_line_end(text, n)
}

/// What a line reader makes of `received`, the text that arrived before the
/// peer stopped sending or up to and including the first line feed.
///
/// Nothing at all is no line. Otherwise the line is the text before the first
/// line feed, without a carriage return that directly precedes it; text that
/// ends without a line feed is a line as it stands.
pub open spec fn first_line_spec(received: Seq<char>) -> Option<Seq<char>> {
    let n = line_end(received);
    if received.len() == 0 {
        None
    } else if n < received.len() {
        if n > 0 && received[n - 1] == '\r' {
            Some(received.subrange(0, n - 1))
        } else {
            Some(received.subrange(0, n))
        }
    } else {
        Some(received)
    }
}

/// The identifier that a received line stands for: the line itself.
pub open spec fn decode_spec(line: Seq<char>) -> Seq<char> {
    line
}

/// A text has exactly one line end.
pub proof fn lemma_line_end_unique(text: Seq<char>, n: int)
    requires
        is_line_end(text, n),
    ensures
        line_end(text) == n,
{
    let m = line_end(text);
    assert(is_line_end(text, m));
    if m < n {
        assert(text[m] == '\n');
    } else if n < m {
        assert(text[n] == '\n');
    }
}

/// Every text has a line end.
pub proof fn lemma_line_end_exists(text: Seq<char>)
    ensures
        is_line_end(text, line_end(text)),
    decreases text.len(),
{
    if text.len() == 0 {
        assert(is_line_end(text, 0));
    } else if text[0] == '\n' {
        assert(is_line_end(text, 0));
    } else {
        let rest = text.drop_first();
        lemma_line_end_exists(rest);
        let k = line_end(rest);
        assert forall|i: int| 0 <= i < k + 1 implies text[i] != '\n' by {
            if i > 0 {
                assert(text[i] == rest[i - 1]);
            }
        }
        if k + 1 < text.len() {
            assert(text[k + 1] == rest[k]);
        }
        assert(is_line_end(text, k + 1));
    }
}

/// A line never holds a line feed, and there is no line only where nothing
/// was received.
pub proof fn law_line_holds_no_line_feed(received: Seq<char>)
    ensures
        first_line_spec(received) matches Some(line) ==> forall|i: int|
            0 <= i < line.len() ==> line[i] != '\n',
        first_line_spec(received) is None <==> received.len() == 0,
{
    lemma_line_end_exists(received);
}

/// A command identifier survives the wire: the line read out of its encoded
/// form decodes to the identifier itself.
pub proof fn law_round_trip(id: Seq<char>)
    requires
        is_command_id(id),
    ensures
        first_line_spec(encode_spec(id)) == Some(id),
        decode_spec(first_line_spec(encode_spec(id))->0) == id,
{
    let wire = encode_spec(id);
    let n = id.len() as int;
    assert forall|i: int| 0 <= i < n implies wire[i] != '\n' by {
        assert(wire[i] == id[i]);
    }
    assert(wire[n] == '\n');
    lemma_line_end_unique(wire, n);
    assert(wire[n - 1] == id[n - 1]);
    assert(wire.subrange(0, n) =~= id);
}

/// Whether `text` comes out of a line reader as it went in: it holds no line
/// feed and does not end in a carriage return.
pub open spec fn survives_the_wire(text: Seq<char>) -> bool {
    &&& forall|i: int| 0 <= i < text.len() ==> text[i] != '\n'
    &&& text.len() > 0 ==> text.last() != '\r'
}

/// The line read out of an encoded text is that text exactly when the text
/// holds no line feed and does not end in a carriage return. Every command
/// identifier is such a text.
pub proof fn law_line_of_encoded(text: Seq<char>)
    ensures
        first_line_spec(encode_spec(text)) == Some(text) <==> survives_the_wire(text),
        first_line_spec(encode_spec(text)) is Some,
        is_command_id(text) ==> survives_the_wire(text),
{
    let wire = encode_spec(text);
    let n = text.len() as int;
    lemma_line_end_exists(wire);
    let end = line_end(wire);
    if survives_the_wire(text) {
        assert forall|i: int| 0 <= i < n implies wire[i] != '\n' by {
            assert(wire[i] == text[i]);
        }
        assert(wire[n] == '\n');
        lemma_line_end_unique(wire, n);
        if n > 0 {
            assert(wire[n - 1] == text.last());
        }
        assert(wire.subrange(0, n) =~= text);
    } else if exists|i: int| 0 <= i < n && text[i] == '\n' {
        let i = choose|i: int| 0 <= i < n && text[i] == '\n';
        assert(wire[i] == '\n');
        assert(end <= i);
        assert(first_line_spec(wire)->0.len() <= i);
    } else {
        assert forall|i: int| 0 <= i < n implies wire[i] != '\n' by {
            assert(wire[i] == text[i]);
        }
        assert(wire[n] == '\n');
        lemma_line_end_unique(wire, n);
        assert(wire[n - 1] == text.last());
        assert(first_line_spec(wire)->0.len() == n - 1);
    }
    if is_command_id(text) {
        assert(text.last() == text[n - 1]);
    }
}

/// An encoded text is one whole line: its only line feed is its last
/// character.
pub proof fn law_encoded_is_one_line(text: Seq<char>)
    requires
        forall|i: int| 0 <= i < text.len() ==> text[i] != '\n',
    ensures
        encode_spec(text).len() == text.len() + 1,
        line_end(encode_spec(text)) == text.len(),
{
    let wire = encode_spec(text);
    let n = text.len() as int;
    assert forall|i: int| 0 <= i < n implies wire[i] != '\n' by {
        assert(wire[i] == text[i]);
    }
    assert(wire[n] == '\n');
    lemma_line_end_unique(wire, n);
}

/// A bare line terminator is a line, and that line is empty.
pub proof fn law_empty_line()
    ensures
        first_line_spec(seq!['\n']) == Some(Seq::<char>::empty()),
        first_line_spec(seq!['\r', '\n']) == Some(Seq::<char>::empty()),
        !is_command_id(Seq::<char>::empty()),
{
    let lf = seq!['\n'];
    assert(lf[0] == '\n');
    lemma_line_end_unique(lf, 0);
    assert(lf.subrange(0, 0) =~= Seq::<char>::empty());
    let crlf = seq!['\r', '\n'];
    assert(crlf[0] == '\r' && crlf[1] == '\n');
    lemma_line_end_unique(crlf, 1);
    assert(crlf.subrange(0, 0) =~= Seq::<char>::empty());
}

/// Encodes `text` as one line: the text followed by a line feed.
pub fn encode(text: &str) -> (line: String)
    ensures
        line@ == encode_spec(text@),
{
    proof {
        reveal_strlit("\n");
    }
    let line = String::from_str(text).concat(LINE_TERMINATOR);
    assert(line@ =~= encode_spec(text@));
    line
}

/// Scans `text` for the end of its first line.
pub fn find_line_end(text: &str) -> (n: usize)
    ensures
        n as int == line_end(text@),
        is_line_end(text@, n as int),
{
    let len: usize = text.unicode_len();
    let mut rest = text.chars();
    let mut n: usize = 0;
    loop
        invariant_except_break
            rest.remaining() == text@.skip(n as int),
        invariant
            len == text@.len(),
            n <= len,
            forall|i: int| 0 <= i < n ==> text@[i] != '\n',
        ensures
            is_line_end(text@, n as int),
        decreases len - n,
    {
        match rest.next() {
            Some(c) => {
                assert(c == text@[n as int]);
                if c == '\n' {
                    break ;
                }
                assert(text@.skip(n as int).drop_first() =~= text@.skip(n + 1));
                n = n + 1;
            },
            None => {
                break ;
            },
        }
    }
    proof {
        lemma_line_end_unique(text@, n as int);
    }
    n
}

/// Reads the first line out of `received`, as a line reader would: without
/// its line feed, and without a carriage return before that line feed.
/// `None` when nothing was received.
pub fn first_line(received: &str) -> (line: Option<String>)
    ensures
        match line {
            Some(text) => first_line_spec(received@) == Some(text@),
            None => first_line_spec(received@) is None,
        },
{
    let len: usize = received.unicode_len();
    if len == 0 {
        return None;
    }
    let n: usize = find_line_end(received);
    if n < len {
        if n > 0 && received.get_char(n - 1) == '\r' {
            Some(String::from_str(received.substring_char(0, n - 1)))
        } else {
            Some(String::from_str(received.substring_char(0, n)))
        }
    } else {
        Some(String::from_str(received))
    }
}

/// Decodes a received line into the identifier it carries. The line is taken
/// verbatim: whether the identifier is known is for the catalog to say.
pub fn decode(line: &str) -> (id: String)
    ensures
        id@ == decode_spec(line@),
{
    String::from_str(line)
}

/// Whether two texts hold the same characters.
pub fn same_text(a: &str, b: &str) -> (same: bool)
    ensures
        same == (a@ == b@),
{
    let len: usize = a.unicode_len();
    let mut xs = a.chars();
    let mut ys = b.chars();
    let mut n: usize = 0;
    let mut same: bool = true;
    loop
        invariant_except_break
            xs.remaining() == a@.skip(n as int),
            ys.remaining() == b@.skip(n as int),
        invariant
            len == a@.len(),
            n <= len,
            n <= b@.len(),
            forall|i: int| 0 <= i < n ==> a@[i] == b@[i],
        ensures
            same == (a@ == b@),
        decreases len - n,
    {
        let x = xs.next();
        let y = ys.next();
        match x {
            Some(c) => {
                assert(c == a@[n as int]);
                match y {
                    Some(d) => {
                        assert(d == b@[n as int]);
                        if c != d {
                            same = false;
                            break ;
                        }
                        assert(a@.skip(n as int).drop_first() =~= a@.skip(n + 1));
                        assert(b@.skip(n as int).drop_first() =~= b@.skip(n + 1));
                        n = n + 1;
                    },
                    None => {
                        assert(b@.len() == n);
                        same = false;
                        break ;
                    },
                }
            },
            None => {
                assert(a@.len() == n);
                same = y.is_none();
                if same {
                    assert(b@.len() == n);
                    assert(a@ =~= b@);
                }
                break ;
            },
        }
    }
    same
}

/// Whether `text` can serve as a command identifier.
pub fn check_command_id(text: &str) -> (valid: bool)
    ensures
        valid == is_command_id(text@),
{
    let len: usize = text.unicode_len();
    if len == 0 {
        return false;
    }
    let mut rest = text.chars();
    let mut n: usize = 0;
    let mut valid: bool = true;
    loop
        invariant_except_break
            rest.remaining() == text@.skip(n as int),
        invariant
            len == text@.len(),
            len > 0,
            n <= len,
            forall|i: int| 0 <= i < n ==> text@[i] != '\n' && text@[i] != '\r',
        ensures
            valid == is_command_id(text@),
        decreases len - n,
    {
        match rest.next() {
            Some(c) => {
                assert(c == text@[n as int]);
                if c == '\n' || c == '\r' {
                    valid = false;
                    break ;
                }
                assert(text@.skip(n as int).drop_first() =~= text@.skip(n + 1));
                n = n + 1;
            },
            None => {
                valid = true;
                break ;
            },
        }
    }
    valid
}

} // verus!
