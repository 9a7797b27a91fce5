//! Helpers for names: splitting them and changing their case.

use crate::codec::Endianness;
use crate::text::to_chars;
use vstd::prelude::*;
use vstd::string::*;

verus! {

/// Whether `target`, the byte order of the machine that the caller asks
/// about, is little-endian.
pub fn is_little_endian(target: Endianness) -> (little: bool)
    ensures
        little == (target == Endianness::Little),
{
    match target {
        Endianness::Little => true,
        Endianness::Big => false,
    }
}

/// Whether `c` has the Unicode property Uppercase.
pub uninterp spec fn is_uppercase_letter(c: char) -> bool;

/// `char::is_uppercase`: whether the character has the Unicode property
/// Uppercase. The result is a function of the character alone; it is named
/// here and not spelled out.
#[verifier::external_body]
fn char_is_uppercase(c: char) -> (yes: bool)
    ensures
        yes == is_uppercase_letter(c),
{
    c.is_uppercase()
}

/// Whether `c` is an underscore.
fn is_underscore(c: char) -> (yes: bool)
    ensures
        yes == (c == '_'),
{
    c == '_'
}

/// The uppercase form of `c` in Unicode: one character or more.
pub uninterp spec fn uppercase_of(c: char) -> Seq<char>;

/// The lowercase form of `c` in Unicode: one character or more.
pub uninterp spec fn lowercase_of(c: char) -> Seq<char>;

/// `char::to_uppercase`, its characters collected: the uppercase form of the
/// character. The result is a function of the character alone; it is named
/// here and not spelled out.
#[verifier::external_body]
fn char_to_uppercase(c: char) -> (text: String)
    ensures
        text@ == uppercase_of(c),
{
    c.to_uppercase().collect()
}

/// `char::to_lowercase`, its characters collected: the lowercase form of the
/// character. The result is a function of the character alone; it is named
/// here and not spelled out.
#[verifier::external_body]
fn char_to_lowercase(c: char) -> (text: String)
    ensures
        text@ == lowercase_of(c),
{
    c.to_lowercase().collect()
}

/// The string of the characters `chars[from..]`.
fn string_from(chars: &Vec<char>, from: usize) -> (text: String)
    requires
        from <= chars.len(),
    ensures
        text@ == chars@.skip(from as int),
{
    let mut text = String::new();
    let mut i: usize = from;
    while i < chars.len()
        invariant
            from <= i <= chars.len(),
            text@ == chars@.subrange(from as int, i as int),
        decreases chars.len() - i,
    {
        text.push(chars[i]);
        i += 1;
    }
    text
}

/// `text` with its first character in uppercase.
pub open spec fn capitalized(text: Seq<char>) -> Seq<char> {
    if text.len() == 0 {
        text
    } else {
        uppercase_of(text[0]) + text.skip(1)
    }
}

/// `text` with its first character in uppercase.
pub fn capitalize_first(text: &str) -> (result: String)
    ensures
        result@ == capitalized(text@),
{
    let chars = to_chars(text);
    if chars.len() == 0 {
        let result = String::new();
        return result;
    }
    let mut result = char_to_uppercase(chars[0]);
    result.append(string_from(&chars, 1).as_str());
    result
}

/// The pieces that `text` falls into where the characters marked in `marks`
/// are taken out: there is one piece more than there are marked characters.
pub open spec fn split_at_marks(text: Seq<char>, marks: Seq<bool>) -> Seq<Seq<char>>
    decreases text.len(),
{
    if text.len() == 0 {
        seq![Seq::empty()]
    } else {
        let before = split_at_marks(text.drop_last(), marks.drop_last());
        if marks.last() {
            before.push(Seq::empty())
        } else {
            before.update(before.len() - 1, before.last().push(text.last()))
        }
    }
}

/// The views of a list of strings.
pub open spec fn string_views(strings: Seq<String>) -> Seq<Seq<char>> {
    Seq::new(strings.len(), |i: int| strings[i]@)
}

/// `text` in camel case: its first character in lowercase. A text of fewer
/// than two characters is left alone.
pub open spec fn camel_case(text: Seq<char>) -> Seq<char> {
    if text.len() < 2 {
        text
    } else {
        lowercase_of(text[0]) + text.skip(1)
    }
}

/// The pieces of `text` between underscores.
pub open spec fn words(text: Seq<char>) -> Seq<Seq<char>> {
    split_at_marks(text, Seq::new(text.len(), |i: int| text[i] == '_'))
}

/// The pieces of `text` between characters with the property Uppercase.
pub open spec fn humps(text: Seq<char>) -> Seq<Seq<char>> {
    split_at_marks(text, Seq::new(text.len(), |i: int| is_uppercase_letter(text[i])))
}

/// The first `count` of `pieces`, each with its first character made a
/// capital letter, one after the other.
pub open spec fn capitalized_pieces(pieces: Seq<Seq<char>>, count: nat) -> Seq<char>
    decreases count,
{
    if count == 0 {
        Seq::empty()
    } else {
        capitalized_pieces(pieces, (count - 1) as nat) + capitalized(pieces[count - 1])
    }
}

/// `text` in Pascal case: the words between its underscores, each with a
/// capital first letter. A text of fewer than two characters is left alone.
pub open spec fn pascal_case(text: Seq<char>) -> Seq<char> {
    if text.len() < 2 {
        text
    } else {
        capitalized_pieces(words(text), words(text).len())
    }
}

/// The first `count` of `pieces`, each followed by an underscore.
pub open spec fn underscored_pieces(pieces: Seq<Seq<char>>, count: nat) -> Seq<char>
    decreases count,
{
    if count == 0 {
        Seq::empty()
    } else {
        underscored_pieces(pieces, (count - 1) as nat) + pieces[count - 1] + seq!['_']
    }
}

/// `text` without the underscores at its end.
pub open spec fn without_trailing_underscores(text: Seq<char>) -> Seq<char>
    decreases text.len(),
{
    if text.len() > 0 && text.last() == '_' {
        without_trailing_underscores(text.drop_last())
    } else {
        text
    }
}

/// `text` in snake case: the pieces between its capital letters, joined by
/// underscores, with no underscore left at the end. The capital letters
/// themselves are taken out.
pub open spec fn snake_case(text: Seq<char>) -> Seq<char> {
    without_trailing_underscores(underscored_pieces(humps(text), humps(text).len()))
}

/// A string whose case can be changed.
pub struct CaseWrapper(pub String);

/// Changing the case of a name.
pub trait Casing {
    /// The characters of the name.
    spec fn text(&self) -> Seq<char>;

    /// The name with its first character in lowercase.
    fn to_camel_case(&self) -> (result: String)
        ensures
            result@ == camel_case(self.text()),
    ;

    /// The pieces of the name between its capital letters, joined by
    /// underscores.
    fn to_snake_case(&self) -> (result: String)
        ensures
            result@ == snake_case(self.text()),
    ;

    /// The words of the name between its underscores, each with a capital
    /// first letter.
    fn to_pascal_case(&self) -> (result: String)
        ensures
            result@ == pascal_case(self.text()),
    ;

    /// Splits the name at the characters for which `char_func` holds, which
    /// are left out of the pieces.
    fn split_string_by<F: Fn(char) -> bool>(&self, char_func: F) -> (pieces: Vec<String>)
        requires
            forall|c: char| #[trigger] char_func.requires((c,)),
        ensures
            exists|marks: Seq<bool>|
                {
                    &&& marks.len() == self.text().len()
                    &&& forall|i: int|
                        0 <= i < marks.len() ==> char_func.ensures(
                            (self.text()[i],),
                            #[trigger] marks[i],
                        )
                    &&& string_views(pieces@) == split_at_marks(self.text(), marks)
                },
    ;
}

impl Casing for CaseWrapper {
    open spec fn text(&self) -> Seq<char> {
        self.0@
    }

    fn to_pascal_case(&self) -> (result: String) {
        let chars = to_chars(self.0.as_str());
        if chars.len() < 2 {
            return self.0.clone();
        }
        let splitted = self.split_string_by(is_underscore);
        proof {
            let marks = choose|marks: Seq<bool>|
                {
                    &&& marks.len() == self.text().len()
                    &&& forall|i: int|
                        0 <= i < marks.len() ==> call_ensures(
                            is_underscore,
                            (self.text()[i],),
                            #[trigger] marks[i],
                        )
                    &&& string_views(splitted@) == split_at_marks(self.text(), marks)
                };
            assert(marks =~= Seq::new(self.text().len(), |i: int| self.text()[i] == '_'));
        }
        let mut results = String::new();
        let mut i: usize = 0;
        while i < splitted.len()
            invariant
                i <= splitted.len(),
                string_views(splitted@) == words(self.text()),
                results@ == capitalized_pieces(words(self.text()), i as nat),
            decreases splitted.len() - i,
        {
            let piece = capitalize_first(splitted[i].as_str());
            results.append(piece.as_str());
            i += 1;
        }
        results
    }

    fn to_camel_case(&self) -> (result: String) {
        let chars = to_chars(self.0.as_str());
        if chars.len() < 2 {
            self.0.clone()
        } else {
            let mut first = char_to_lowercase(chars[0]);
            first.append(string_from(&chars, 1).as_str());
            first
        }
    }

    fn to_snake_case(&self) -> (result: String) {
        let splitted = self.split_string_by(char_is_uppercase);
        proof {
            let marks = choose|marks: Seq<bool>|
                {
                    &&& marks.len() == self.text().len()
                    &&& forall|i: int|
                        0 <= i < marks.len() ==> call_ensures(
                            char_is_uppercase,
                            (self.text()[i],),
                            #[trigger] marks[i],
                        )
                    &&& string_views(splitted@) == split_at_marks(self.text(), marks)
                };
            assert(marks =~= Seq::new(
                self.text().len(),
                |i: int| is_uppercase_letter(self.text()[i]),
            ));
        }
        let mut joined: Vec<char> = Vec::new();
        let mut i: usize = 0;
        while i < splitted.len()
            invariant
                i <= splitted.len(),
                string_views(splitted@) == humps(self.text()),
                joined@ == underscored_pieces(humps(self.text()), i as nat),
            decreases splitted.len() - i,
        {
            let mut piece = to_chars(splitted[i].as_str());
            joined.append(&mut piece);
            joined.push('_');
            i += 1;
        }
        let mut end: usize = joined.len();
        assert(joined@.take(end as int) =~= joined@);
        while end > 0 && joined[end - 1] == '_'
            invariant
                end <= joined.len(),
                without_trailing_underscores(joined@) == without_trailing_underscores(
                    joined@.take(end as int),
                ),
            decreases end,
        {
            assert(joined@.take(end as int).drop_last() =~= joined@.take(end - 1));
            end -= 1;
        }
        let mut results = String::new();
        let mut k: usize = 0;
        while k < end
            invariant
                k <= end <= joined.len(),
                results@ == joined@.take(k as int),
            decreases end - k,
        {
            results.push(joined[k]);
            k += 1;
        }
        results
    }

    fn split_string_by<F: Fn(char) -> bool>(&self, char_func: F) -> (pieces: Vec<String>) {
        let chars = to_chars(self.0.as_str());
        let mut result: Vec<String> = Vec::new();
        let mut intermediate_result = String::new();
        let ghost mut marks: Seq<bool> = Seq::empty();
        let mut i: usize = 0;
        while i < chars.len()
            invariant
                i <= chars.len(),
                chars@ == self.text(),
                forall|c: char| #[trigger] char_func.requires((c,)),
                marks.len() == i,
                forall|k: int|
                    0 <= k < i ==> char_func.ensures((chars@[k],), #[trigger] marks[k]),
                string_views(result@).push(intermediate_result@) == split_at_marks(
                    chars@.take(i as int),
                    marks,
                ),
            decreases chars.len() - i,
        {
            let c = chars[i];
            let ghost before_marks = marks;
            let marked = char_func(c);
            proof {
                marks = marks.push(marked);
                assert(chars@.take(i + 1).drop_last() =~= chars@.take(i as int));
                assert(marks.drop_last() =~= before_marks);
            }
            if !marked {
                intermediate_result.push(c);
            } else {
                result.push(intermediate_result);
                intermediate_result = String::new();
            }
            i += 1;
        }
        result.push(intermediate_result);
        assert(chars@.take(i as int) =~= chars@);
        result
    }
}

} // verus!
