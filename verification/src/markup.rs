//! How deep the elements of an XML document are nested. A reader that
//! descends once for every element inside another needs stack in proportion
//! to that depth, so a document from the network is measured before it is
//! read.
//!
//! The measure walks over the markup of the document as an XML tokenizer
//! does. Text runs to the next `<`. What follows `<` decides: `<![` starts a
//! CDATA section, which runs to the first `]]>`; `<!-` a comment, which runs
//! to the first `-->` after its opening; `<?` a processing instruction, which
//! runs to the first `?>`; `</` an end tag and anything else a start tag,
//! which both run to the first `>` outside of quotes. A start tag that ends
//! in `/>` is closed at once. The walk stops at the first markup that is not
//! closed, and at a `<!` that starts none of these and no document type
//! declaration: a tokenizer stops there too.
//!
//! A document type declaration, `<!D` or `<!d`, runs to the first `>` outside
//! of quotes, or, where a `[` comes first, through its internal subset: that
//! runs to the first `]` outside of the markup in it, and the declaration
//! ends with the `>` after that. Markup in the subset runs to its own end: a
//! processing instruction to `?>`, a comment to `-->`, the declaration of an
//! entity, an attribute list or a notation to the first `>` outside of
//! quotes, and anything else to the first `>`.
use crate::scan::{find, find_byte};
use vstd::prelude::*;

verus! {

/// The deepest nesting that is read.
pub const MAX_NESTING: usize = 64;

/// The index of the `>` that ends the tag in which `pos` lies, or the length
/// of `bytes` where the tag is not ended. `quote` is the quotation mark that
/// was opened before `pos` and is not closed yet, or 0 for none: inside
/// quotes a `>` ends nothing.
pub open spec fn tag_end(bytes: Seq<u8>, pos: int, quote: u8) -> int
    decreases bytes.len() - pos,
{
    if pos < 0 || pos >= bytes.len() {
        bytes.len() as int
    } else if quote == 0 {
        if bytes[pos] == 0x3e {
            pos
        } else if bytes[pos] == 0x27 || bytes[pos] == 0x22 {
            tag_end(bytes, pos + 1, bytes[pos])
        } else {
            tag_end(bytes, pos + 1, 0)
        }
    } else if bytes[pos] == quote {
        tag_end(bytes, pos + 1, 0)
    } else {
        tag_end(bytes, pos + 1, quote)
    }
}

/// The index of the first `>` or `[` outside of quotes in the document type
/// declaration in which `pos` lies, or the length of `bytes` where there is
/// none: `>` closes the declaration, `[` opens its internal subset. `quote`
/// is the quotation mark that was opened before `pos` and is not closed yet,
/// or 0 for none.
pub open spec fn declaration_end(bytes: Seq<u8>, pos: int, quote: u8) -> int
    decreases bytes.len() - pos,
{
    if pos < 0 || pos >= bytes.len() {
        bytes.len() as int
    } else if quote == 0 {
        if bytes[pos] == 0x3e || bytes[pos] == 0x5b {
            pos
        } else if bytes[pos] == 0x27 || bytes[pos] == 0x22 {
            declaration_end(bytes, pos + 1, bytes[pos])
        } else {
            declaration_end(bytes, pos + 1, 0)
        }
    } else if bytes[pos] == quote {
        declaration_end(bytes, pos + 1, 0)
    } else {
        declaration_end(bytes, pos + 1, quote)
    }
}

/// Whether `bytes` holds `word` at `at`.
pub open spec fn holds_at(bytes: Seq<u8>, at: int, word: Seq<u8>) -> bool {
    &&& 0 <= at
    &&& at + word.len() <= bytes.len()
    &&& bytes.subrange(at, at + word.len()) == word
}

/// `?`, which after `<` starts a processing instruction.
pub open spec fn instruction_word() -> Seq<u8> {
    seq![0x3fu8]
}

/// `!--`, which after `<` starts a comment.
pub open spec fn comment_word() -> Seq<u8> {
    seq![0x21u8, 0x2du8, 0x2du8]
}

/// `!ELEMENT`.
pub open spec fn element_word() -> Seq<u8> {
    seq![0x21u8, 0x45u8, 0x4cu8, 0x45u8, 0x4du8, 0x45u8, 0x4eu8, 0x54u8]
}

/// `!ENTITY`.
pub open spec fn entity_word() -> Seq<u8> {
    seq![0x21u8, 0x45u8, 0x4eu8, 0x54u8, 0x49u8, 0x54u8, 0x59u8]
}

/// `!ATTLIST`.
pub open spec fn attlist_word() -> Seq<u8> {
    seq![0x21u8, 0x41u8, 0x54u8, 0x54u8, 0x4cu8, 0x49u8, 0x53u8, 0x54u8]
}

/// `!NOTATION`.
pub open spec fn notation_word() -> Seq<u8> {
    seq![0x21u8, 0x4eu8, 0x4fu8, 0x54u8, 0x41u8, 0x54u8, 0x49u8, 0x4fu8, 0x4eu8]
}

/// The index of the `>` that ends the markup which begins with the `<` at
/// `open` inside an internal subset, or the length of `bytes` where it is
/// not ended.
pub open spec fn markup_end(bytes: Seq<u8>, open: int) -> int {
    if holds_at(bytes, open + 1, instruction_word()) {
        section_end(bytes, open + 3, 0x3f, false)
    } else if holds_at(bytes, open + 1, comment_word()) {
        section_end(bytes, open + 6, 0x2d, true)
    } else if holds_at(bytes, open + 1, element_word()) {
        find(bytes, open + 9, 0x3e)
    } else if holds_at(bytes, open + 1, entity_word()) {
        tag_end(bytes, open + 8, 0)
    } else if holds_at(bytes, open + 1, attlist_word()) {
        tag_end(bytes, open + 9, 0)
    } else if holds_at(bytes, open + 1, notation_word()) {
        tag_end(bytes, open + 10, 0)
    } else {
        find(bytes, open + 1, 0x3e)
    }
}

/// The index of the `>` that ends the document type declaration in whose
/// internal subset `pos` lies, or the length of `bytes` where the
/// declaration is not ended.
pub open spec fn subset_end(bytes: Seq<u8>, pos: int) -> int
    decreases bytes.len() - pos,
{
    if pos < 0 || pos >= bytes.len() {
        bytes.len() as int
    } else if bytes[pos] == 0x5d {
        find(bytes, pos + 1, 0x3e)
    } else if bytes[pos] == 0x3c {
        let end = markup_end(bytes, pos);
        if pos < end < bytes.len() {
            subset_end(bytes, end + 1)
        } else {
            bytes.len() as int
        }
    } else {
        subset_end(bytes, pos + 1)
    }
}

/// Whether `bytes` has a `>` at `pos` that stands after `mark`, or after
/// `mark` twice where `twice` is set.
pub open spec fn closes_at(bytes: Seq<u8>, pos: int, mark: u8, twice: bool) -> bool {
    &&& 2 <= pos < bytes.len()
    &&& bytes[pos] == 0x3e
    &&& bytes[pos - 1] == mark
    &&& twice ==> bytes[pos - 2] == mark
}

/// The index of the first `>` at or after `pos` that stands after `mark` (or
/// after `mark` twice), or the length of `bytes` where there is none.
pub open spec fn section_end(bytes: Seq<u8>, pos: int, mark: u8, twice: bool) -> int
    decreases bytes.len() - pos,
{
    if pos < 0 || pos >= bytes.len() {
        bytes.len() as int
    } else if closes_at(bytes, pos, mark, twice) {
        pos
    } else {
        section_end(bytes, pos + 1, mark, twice)
    }
}

/// The larger of two numbers.
pub open spec fn larger(a: nat, b: nat) -> nat {
    if a > b {
        a
    } else {
        b
    }
}

/// The deepest nesting from `pos` on, where the nesting at `pos` is `depth`
/// and the deepest before it `peak`.
pub open spec fn deepest(bytes: Seq<u8>, pos: int, depth: nat, peak: nat) -> nat
    decreases bytes.len() - pos,
{
    let open = find(bytes, pos, 0x3c);
    if pos < 0 || !(pos <= open && open + 1 < bytes.len()) {
        peak
    } else if bytes[open + 1] == 0x21 {
        if open + 2 >= bytes.len() {
            peak
        } else if bytes[open + 2] == 0x5b {
            let end = section_end(bytes, open + 4, 0x5d, true);
            if open < end < bytes.len() {
                deepest(bytes, end + 1, depth, peak)
            } else {
                peak
            }
        } else if bytes[open + 2] == 0x2d {
            let end = section_end(bytes, open + 6, 0x2d, true);
            if open < end < bytes.len() {
                deepest(bytes, end + 1, depth, peak)
            } else {
                peak
            }
        } else if bytes[open + 2] == 0x44 || bytes[open + 2] == 0x64 {
            let end = declaration_end(bytes, open + 2, 0);
            if !(open < end < bytes.len()) {
                peak
            } else if bytes[end] == 0x3e {
                deepest(bytes, end + 1, depth, peak)
            } else {
                let close = subset_end(bytes, end + 1);
                if end < close < bytes.len() {
                    deepest(bytes, close + 1, depth, peak)
                } else {
                    peak
                }
            }
        } else {
            peak
        }
    } else if bytes[open + 1] == 0x3f {
        let end = section_end(bytes, open + 2, 0x3f, false);
        if open < end < bytes.len() {
            deepest(bytes, end + 1, depth, peak)
        } else {
            peak
        }
    } else {
        let end = tag_end(bytes, open + 1, 0);
        if !(open < end < bytes.len()) {
            peak
        } else if bytes[open + 1] == 0x2f {
            deepest(
                bytes,
                end + 1,
                if depth > 0 {
                    (depth - 1) as nat
                } else {
                    0
                },
                peak,
            )
        } else if bytes[end - 1] == 0x2f {
            deepest(bytes, end + 1, depth, larger(peak, depth + 1))
        } else {
            deepest(bytes, end + 1, depth + 1, larger(peak, depth + 1))
        }
    }
}

/// How deep the elements of the document `bytes` are nested, as far as a
/// tokenizer gets: 0 where there is no element, 1 where none stands inside
/// another.
pub open spec fn nesting(bytes: Seq<u8>) -> nat {
    deepest(bytes, 0, 0, 0)
}

fn find_tag_end(bytes: &[u8], from: usize) -> (at: usize)
    requires
        from <= bytes@.len(),
    ensures
        at == tag_end(bytes@, from as int, 0),
        from <= at <= bytes@.len(),
{
    let mut at: usize = from;
    let mut quote: u8 = 0;
    while at < bytes.len() && !(quote == 0 && bytes[at] == 0x3e)
        invariant
            from <= at <= bytes@.len(),
            tag_end(bytes@, from as int, 0) == tag_end(bytes@, at as int, quote),
        decreases bytes@.len() - at,
    {
        let byte = bytes[at];
        if quote == 0 {
            if byte == 0x27 || byte == 0x22 {
                quote = byte;
            }
        } else if byte == quote {
            quote = 0;
        }
        at = at + 1;
    }
    at
}

fn find_declaration_end(bytes: &[u8], from: usize) -> (at: usize)
    requires
        from <= bytes@.len(),
    ensures
        at == declaration_end(bytes@, from as int, 0),
        from <= at <= bytes@.len(),
{
    let mut at: usize = from;
    let mut quote: u8 = 0;
    while at < bytes.len() && !(quote == 0 && (bytes[at] == 0x3e || bytes[at] == 0x5b))
        invariant
            from <= at <= bytes@.len(),
            declaration_end(bytes@, from as int, 0) == declaration_end(bytes@, at as int, quote),
        decreases bytes@.len() - at,
    {
        let byte = bytes[at];
        if quote == 0 {
            if byte == 0x27 || byte == 0x22 {
                quote = byte;
            }
        } else if byte == quote {
            quote = 0;
        }
        at = at + 1;
    }
    at
}

fn find_section_end(bytes: &[u8], from: usize, mark: u8, twice: bool) -> (at: usize)
    requires
        2 <= from,
    ensures
        at == section_end(bytes@, from as int, mark, twice),
        at <= bytes@.len(),
        at < bytes@.len() ==> from <= at,
{
    if from >= bytes.len() {
        return bytes.len();
    }
    let mut at: usize = from;
    while at < bytes.len() && !(bytes[at] == 0x3e && bytes[at - 1] == mark && (!twice || bytes[at
        - 2] == mark))
        invariant
            2 <= from <= at <= bytes@.len(),
            section_end(bytes@, from as int, mark, twice) == section_end(
                bytes@,
                at as int,
                mark,
                twice,
            ),
        decreases bytes@.len() - at,
    {
        at = at + 1;
    }
    at
}

/// Whether `bytes` holds `word` at `at`.
fn starts_at(bytes: &[u8], at: usize, word: &[u8]) -> (r: bool)
    ensures
        r == holds_at(bytes@, at as int, word@),
{
    if at > bytes.len() || word.len() > bytes.len() - at {
        return false;
    }
    let mut i: usize = 0;
    while i < word.len()
        invariant
            at + word.len() <= bytes.len(),
            i <= word.len(),
            forall|j: int| 0 <= j < i ==> bytes@[at + j] == word@[j],
        decreases word.len() - i,
    {
        if bytes[at + i] != word[i] {
            assert(bytes@.subrange(at as int, at + word.len())[i as int] != word@[i as int]);
            return false;
        }
        i = i + 1;
    }
    assert(bytes@.subrange(at as int, at + word.len()) =~= word@);
    true
}

/// The index of the tag end at or after `open + skip`, or the length of
/// `bytes`.
fn tag_end_after(bytes: &[u8], open: usize, skip: usize) -> (at: usize)
    requires
        open < bytes@.len(),
    ensures
        at == tag_end(bytes@, open + skip, 0),
        at <= bytes@.len(),
        at < bytes@.len() ==> open + skip <= at,
{
    if bytes.len() - open <= skip {
        bytes.len()
    } else {
        find_tag_end(bytes, open + skip)
    }
}

/// The index of the section end at or after `open + skip`, or the length of
/// `bytes`.
fn section_end_after(bytes: &[u8], open: usize, skip: usize, mark: u8, twice: bool) -> (at: usize)
    requires
        open < bytes@.len(),
        2 <= skip,
    ensures
        at == section_end(bytes@, open + skip, mark, twice),
        at <= bytes@.len(),
        at < bytes@.len() ==> open + skip <= at,
{
    if bytes.len() - open <= skip {
        bytes.len()
    } else {
        find_section_end(bytes, open + skip, mark, twice)
    }
}

/// The index of the first `>` at or after `open + skip`, or the length of
/// `bytes`.
fn bracket_after(bytes: &[u8], open: usize, skip: usize) -> (at: usize)
    requires
        open < bytes@.len(),
    ensures
        at == find(bytes@, open + skip, 0x3e),
        at <= bytes@.len(),
        at < bytes@.len() ==> open + skip <= at,
{
    if bytes.len() - open <= skip {
        bytes.len()
    } else {
        find_byte(bytes, open + skip, 0x3e)
    }
}

fn find_markup_end(bytes: &[u8], open: usize) -> (at: usize)
    requires
        open < bytes@.len(),
    ensures
        at == markup_end(bytes@, open as int),
        at <= bytes@.len(),
        at < bytes@.len() ==> open < at,
{
    let instruction: [u8; 1] = [0x3f];
    let comment: [u8; 3] = [0x21, 0x2d, 0x2d];
    let element: [u8; 8] = [0x21, 0x45, 0x4c, 0x45, 0x4d, 0x45, 0x4e, 0x54];
    let entity: [u8; 7] = [0x21, 0x45, 0x4e, 0x54, 0x49, 0x54, 0x59];
    let attlist: [u8; 8] = [0x21, 0x41, 0x54, 0x54, 0x4c, 0x49, 0x53, 0x54];
    let notation: [u8; 9] = [0x21, 0x4e, 0x4f, 0x54, 0x41, 0x54, 0x49, 0x4f, 0x4e];
    proof {
        assert(instruction@ =~= instruction_word());
        assert(comment@ =~= comment_word());
        assert(element@ =~= element_word());
        assert(entity@ =~= entity_word());
        assert(attlist@ =~= attlist_word());
        assert(notation@ =~= notation_word());
    }
    assert(open < bytes.len());
    if starts_at(bytes, open + 1, instruction.as_slice()) {
        section_end_after(bytes, open, 3, 0x3f, false)
    } else if starts_at(bytes, open + 1, comment.as_slice()) {
        section_end_after(bytes, open, 6, 0x2d, true)
    } else if starts_at(bytes, open + 1, element.as_slice()) {
        bracket_after(bytes, open, 9)
    } else if starts_at(bytes, open + 1, entity.as_slice()) {
        tag_end_after(bytes, open, 8)
    } else if starts_at(bytes, open + 1, attlist.as_slice()) {
        tag_end_after(bytes, open, 9)
    } else if starts_at(bytes, open + 1, notation.as_slice()) {
        tag_end_after(bytes, open, 10)
    } else {
        bracket_after(bytes, open, 1)
    }
}

fn find_subset_end(bytes: &[u8], from: usize) -> (at: usize)
    requires
        from <= bytes@.len(),
    ensures
        at == subset_end(bytes@, from as int),
        at <= bytes@.len(),
        at < bytes@.len() ==> from <= at,
{
    let n = bytes.len();
    let mut pos: usize = from;
    while pos < n
        invariant
            n == bytes@.len(),
            from <= pos <= n,
            subset_end(bytes@, from as int) == subset_end(bytes@, pos as int),
        decreases n - pos,
    {
        let byte = bytes[pos];
        if byte == 0x5d {
            return bracket_after(bytes, pos, 1);
        } else if byte == 0x3c {
            let end = find_markup_end(bytes, pos);
            if end >= n {
                return n;
            }
            pos = end + 1;
        } else {
            pos = pos + 1;
        }
    }
    n
}

/// How deep the elements of the document `bytes` are nested.
pub fn nesting_of(bytes: &[u8]) -> (deepest: usize)
    ensures
        deepest == nesting(bytes@),
{
    let n = bytes.len();
    let mut pos: usize = 0;
    let mut depth: usize = 0;
    let mut peak: usize = 0;
    while pos < n
        invariant
            n == bytes@.len(),
            pos <= n,
            depth <= pos,
            peak <= pos,
            nesting(bytes@) == deepest(bytes@, pos as int, depth as nat, peak as nat),
        decreases n - pos,
    {
        let open = find_byte(bytes, pos, 0x3c);
        if open >= n || open + 1 >= n {
            return peak;
        }
        let kind = bytes[open + 1];
        if kind == 0x21 {
            if open + 2 >= n {
                return peak;
            }
            let section = bytes[open + 2];
            if section == 0x5b || section == 0x2d {
                let skip: usize = if section == 0x5b {
                    4
                } else {
                    6
                };
                let mark: u8 = if section == 0x5b {
                    0x5d
                } else {
                    0x2d
                };
                if n - open <= skip {
                    return peak;
                }
                let end = find_section_end(bytes, open + skip, mark, true);
                if end >= n {
                    return peak;
                }
                pos = end + 1;
            } else if section == 0x44 || section == 0x64 {
                let end = find_declaration_end(bytes, open + 2);
                if end >= n {
                    return peak;
                }
                if bytes[end] == 0x3e {
                    pos = end + 1;
                } else {
                    let close = find_subset_end(bytes, end + 1);
                    if close >= n {
                        return peak;
                    }
                    pos = close + 1;
                }
            } else {
                return peak;
            }
        } else if kind == 0x3f {
            let end = find_section_end(bytes, open + 2, 0x3f, false);
            if end >= n {
                return peak;
            }
            pos = end + 1;
        } else {
            let end = find_tag_end(bytes, open + 1);
            if end >= n {
                return peak;
            }
            if kind == 0x2f {
                if depth > 0 {
                    depth = depth - 1;
                }
            } else {
                if peak < depth + 1 {
                    peak = depth + 1;
                }
                if bytes[end - 1] != 0x2f {
                    depth = depth + 1;
                }
            }
            pos = end + 1;
        }
    }
    peak
}

} // verus!
