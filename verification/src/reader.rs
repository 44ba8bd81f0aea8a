//! Reads a list of names that is written as an array of quoted texts, such
//! as `['class', "title"]`.

use crate::shim::{array_of, escaped, escaped_char, listed, quoted};
use crate::text::names_of;
use vstd::prelude::*;
use vstd::string::*;

verus! {

/// Where the reader stands in the text of an array.
#[derive(Clone, Copy, Debug, PartialEq, Eq, Structural)]
pub enum Reading {
    /// Before the opening bracket.
    Before,
    /// After the opening bracket or after a comma: a name or the closing
    /// bracket may follow.
    Open,
    /// Inside a name that the given quote has opened.
    Name { quote: char },
    /// After a name: a comma or the closing bracket must follow.
    After,
    /// After the closing bracket.
    Closed,
    /// The text is not an array of quoted names.
    Refused,
}

/// What the reader has made of the text so far: where it stands, the names
/// that are complete, and the characters of the name that is open.
pub struct Read {
    pub state: Reading,
    pub names: Seq<Seq<char>>,
    pub current: Seq<char>,
}

/// Whether a character is white space between the parts of an array.
pub open spec fn is_space(c: char) -> bool {
    c == ' ' || c == '\t' || c == '\n' || c == '\r'
}

/// Whether a character opens and closes a name.
pub open spec fn is_quote(c: char) -> bool {
    c == '\'' || c == '"'
}

impl Read {
    /// The reader before the first character.
    pub open spec fn start() -> Read {
        Read { state: Reading::Before, names: Seq::empty(), current: Seq::empty() }
    }

    /// The reader after a character that an array cannot hold at this place.
    pub open spec fn refused(self) -> Read {
        Read { state: Reading::Refused, ..self }
    }

    /// The reader after one more character.
    ///
    /// White space is passed over outside names. A name runs from its quote
    /// to the next quote of the same kind and holds every character between
    /// them as it stands; a backslash inside a name is refused, since what it
    /// escapes is not read. Names are separated by commas, and a comma may
    /// stand after the last name.
    pub open spec fn after(self, c: char) -> Read {
        match self.state {
            Reading::Before => if is_space(c) {
                self
            } else if c == '[' {
                Read { state: Reading::Open, ..self }
            } else {
                self.refused()
            },
            Reading::Open => if is_space(c) {
                self
            } else if c == ']' {
                Read { state: Reading::Closed, ..self }
            } else if is_quote(c) {
                Read { state: Reading::Name { quote: c }, current: Seq::empty(), ..self }
            } else {
                self.refused()
            },
            Reading::Name { quote } => if c == quote {
                Read {
                    state: Reading::After,
                    names: self.names.push(self.current),
                    current: Seq::empty(),
                }
            } else if c == '\\' {
                self.refused()
            } else {
                Read { current: self.current.push(c), ..self }
            },
            Reading::After => if is_space(c) {
                self
            } else if c == ',' {
                Read { state: Reading::Open, ..self }
            } else if c == ']' {
                Read { state: Reading::Closed, ..self }
            } else {
                self.refused()
            },
            Reading::Closed => if is_space(c) {
                self
            } else {
                self.refused()
            },
            Reading::Refused => self,
        }
    }

    /// The reader after some more characters.
    pub open spec fn through(self, text: Seq<char>) -> Read
        decreases text.len(),
    {
        if text.len() == 0 {
            self
        } else {
            self.through(text.drop_last()).after(text.last())
        }
    }

    /// The reader after a whole text.
    pub open spec fn of(text: Seq<char>) -> Read {
        Read::start().through(text)
    }
}

/// The names that a text lists, if the text is an array of quoted names.
pub open spec fn names_in(text: Seq<char>) -> Option<Seq<Seq<char>>> {
    if Read::of(text).state is Closed {
        Some(Read::of(text).names)
    } else {
        None
    }
}

/// Whether a name holds no character that is escaped where it is written
/// between quotes.
pub open spec fn is_plain(name: Seq<char>) -> bool {
    forall|i: int| 0 <= i < name.len() ==> escaped_char(#[trigger] name[i]) == seq![name[i]]
}

proof fn lemma_through_one(read: Read, c: char)
    ensures
        read.through(seq![c]) == read.after(c),
{
    assert(seq![c].drop_last() =~= Seq::<char>::empty());
    assert(read.through(Seq::<char>::empty()) == read);
}

proof fn lemma_through_both(read: Read, first: Seq<char>, second: Seq<char>)
    ensures
        read.through(first + second) == read.through(first).through(second),
    decreases second.len(),
{
    if second.len() == 0 {
        assert(first + second =~= first);
    } else {
        lemma_through_both(read, first, second.drop_last());
        assert((first + second).drop_last() =~= first + second.drop_last());
        assert((first + second).last() == second.last());
    }
}

proof fn lemma_plain_is_written_as_it_is(name: Seq<char>)
    requires
        is_plain(name),
    ensures
        escaped(name) == name,
    decreases name.len(),
{
    if name.len() > 0 {
        assert forall|i: int| 0 <= i < name.drop_last().len() implies escaped_char(
            #[trigger] name.drop_last()[i],
        ) == seq![name.drop_last()[i]] by {
            assert(name.drop_last()[i] == name[i]);
        }
        lemma_plain_is_written_as_it_is(name.drop_last());
        assert(escaped_char(name[name.len() - 1]) == seq![name[name.len() - 1]]);
        assert(name.drop_last() + seq![name.last()] =~= name);
    } else {
        assert(escaped(name) =~= name);
    }
}

proof fn lemma_inside_a_name(read: Read, name: Seq<char>)
    requires
        read.state == (Reading::Name { quote: '"' }),
        is_plain(name),
    ensures
        read.through(name) == (Read { current: read.current + name, ..read }),
    decreases name.len(),
{
    if name.len() == 0 {
        assert(read.current + name =~= read.current);
    } else {
        let front = name.drop_last();
        assert forall|i: int| 0 <= i < front.len() implies escaped_char(#[trigger] front[i])
            == seq![front[i]] by {
            assert(front[i] == name[i]);
        }
        lemma_inside_a_name(read, front);
        let c = name.last();
        assert(escaped_char(name[name.len() - 1]) == seq![c]);
        assert(c != '"' && c != '\\') by {
            assert(seq!['\\', '"'].len() == 2);
            assert(seq!['\\', '\\'].len() == 2);
            assert(seq![c].len() == 1);
        }
        assert((read.current + front).push(c) =~= read.current + name);
    }
}

proof fn lemma_a_quoted_name(read: Read, name: Seq<char>)
    requires
        read.state == Reading::Open,
        is_plain(name),
    ensures
        read.through(quoted(name)) == (Read {
            state: Reading::After,
            names: read.names.push(name),
            current: Seq::empty(),
        }),
{
    let quote = seq!['"'];
    lemma_plain_is_written_as_it_is(name);
    lemma_through_both(read, quote + name, quote);
    lemma_through_both(read, quote, name);
    lemma_through_one(read, '"');
    let opened = read.after('"');
    lemma_inside_a_name(opened, name);
    lemma_through_one(opened.through(name), '"');
    assert(Seq::<char>::empty() + name =~= name);
}

proof fn lemma_listed_names(read: Read, names: Seq<Seq<char>>)
    requires
        read.state == Reading::Open,
        names.len() > 0,
        forall|i: int| 0 <= i < names.len() ==> is_plain(#[trigger] names[i]),
    ensures
        read.through(listed(names)) == (Read {
            state: Reading::After,
            names: read.names + names,
            current: Seq::empty(),
        }),
    decreases names.len(),
{
    if names.len() == 1 {
        lemma_a_quoted_name(read, names[0]);
        assert(read.names.push(names[0]) =~= read.names + names);
    } else {
        let front = names.drop_last();
        let last = names.last();
        assert forall|i: int| 0 <= i < front.len() implies is_plain(#[trigger] front[i]) by {
            assert(front[i] == names[i]);
        }
        lemma_listed_names(read, front);
        let listed_front = listed(front);
        let comma = seq![','];
        let blank = seq![' '];
        assert(seq![',', ' '] =~= comma + blank);
        assert(listed(names) == listed_front + seq![',', ' '] + quoted(last));
        lemma_through_both(read, listed_front + seq![',', ' '], quoted(last));
        lemma_through_both(read, listed_front, seq![',', ' ']);
        let after_front = read.through(listed_front);
        lemma_through_both(after_front, comma, blank);
        lemma_through_one(after_front, ',');
        lemma_through_one(after_front.after(','), ' ');
        let open = after_front.after(',').after(' ');
        assert(is_plain(names[names.len() - 1]));
        lemma_a_quoted_name(open, last);
        assert((read.names + front).push(last) =~= read.names + names);
    }
}

/// A list of names that the shim writes as an array is read back as it was,
/// where no name holds a character that is written escaped.
pub proof fn written_names_are_read_back(names: Seq<Seq<char>>)
    requires
        forall|i: int| 0 <= i < names.len() ==> is_plain(#[trigger] names[i]),
    ensures
        names_in(array_of(names)) == Some(names),
{
    let open = seq!['['];
    let close = seq![']'];
    let start = Read::start();
    lemma_through_both(start, open + listed(names), close);
    lemma_through_both(start, open, listed(names));
    lemma_through_one(start, '[');
    let opened = start.after('[');
    if names.len() == 0 {
        assert(opened.through(listed(names)) == opened);
        lemma_through_one(opened, ']');
        assert(opened.names =~= names);
    } else {
        lemma_listed_names(opened, names);
        lemma_through_one(opened.through(listed(names)), ']');
        assert(opened.names + names =~= names);
    }
}

fn space(c: char) -> (space: bool)
    ensures
        space == is_space(c),
{
    c == ' ' || c == '\t' || c == '\n' || c == '\r'
}

/// Reads the names that a text lists. The answer is `None` where the text is
/// not an array of quoted names.
pub fn read_names(text: &str) -> (names: Option<Vec<String>>)
    ensures
        match names {
            Some(list) => names_in(text@) == Some(names_of(list@)),
            None => names_in(text@) is None,
        },
{
    let length = text.unicode_len();
    let mut state = Reading::Before;
    let mut names: Vec<String> = Vec::new();
    let mut starts: usize = 0;
    let mut at: usize = 0;
    assert(text@.take(0) =~= Seq::<char>::empty());
    assert(names_of(names@) =~= Seq::<Seq<char>>::empty());
    while at < length
        invariant
            length == text@.len(),
            at <= length,
            state == Read::of(text@.take(at as int)).state,
            names_of(names@) == Read::of(text@.take(at as int)).names,
            state is Name ==> starts <= at && Read::of(text@.take(at as int)).current
                == text@.subrange(starts as int, at as int),
        decreases length - at,
    {
        let c = text.get_char(at);
        let ghost before = Read::of(text@.take(at as int));
        assert(text@.take(at + 1).drop_last() =~= text@.take(at as int));
        assert(text@.take(at + 1).last() == c);
        assert(Read::of(text@.take(at + 1)) == before.after(c));
        match state {
            Reading::Before => {
                if space(c) {
                } else if c == '[' {
                    state = Reading::Open;
                } else {
                    state = Reading::Refused;
                }
            },
            Reading::Open => {
                if space(c) {
                } else if c == ']' {
                    state = Reading::Closed;
                } else if c == '\'' || c == '"' {
                    state = Reading::Name { quote: c };
                    starts = at + 1;
                    assert(text@.subrange(at + 1, at + 1) =~= Seq::<char>::empty());
                } else {
                    state = Reading::Refused;
                }
            },
            Reading::Name { quote } => {
                if c == quote {
                    let ghost listed = names_of(names@);
                    names.push(String::from_str(text.substring_char(starts, at)));
                    assert(names_of(names@) =~= listed.push(before.current));
                    state = Reading::After;
                } else if c == '\\' {
                    state = Reading::Refused;
                } else {
                    assert(text@.subrange(starts as int, at + 1) =~= text@.subrange(
                        starts as int,
                        at as int,
                    ).push(c));
                }
            },
            Reading::After => {
                if space(c) {
                } else if c == ',' {
                    state = Reading::Open;
                } else if c == ']' {
                    state = Reading::Closed;
                } else {
                    state = Reading::Refused;
                }
            },
            Reading::Closed => {
                if space(c) {
                } else {
                    state = Reading::Refused;
                }
            },
            Reading::Refused => {},
        }
        at += 1;
    }
    assert(text@.take(at as int) =~= text@);
    match state {
        Reading::Closed => Some(names),
        _ => None,
    }
}

} // verus!
