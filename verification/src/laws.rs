//! Laws of the scanner, stated and proved against the reference semantics
//! `scan::scan_at`.  Because `Lexer::next` is proved to return exactly what
//! `scan_at` says, each law holds of the executable token stream as well.

use vstd::prelude::*;

verus! {

use crate::scan;
use crate::scan::ScanKind;
use crate::token::TokenType;

/// On input not yet broken by a newline, the reported column equals the
/// count of characters consumed, leading whitespace included, and the line
/// is still 1.
pub proof fn lemma_column_counts_consumed(src: Seq<char>, i: int)
    requires
        0 <= i <= src.len(),
        forall|j: int| 0 <= j < i ==> src[j] != '\n',
    ensures
        scan::col_at(src, i) == i,
        scan::line_at(src, i) == 1,
    decreases i,
{
    if i > 0 {
        lemma_column_counts_consumed(src, i - 1);
    }
}

/// An operator lead not followed by its extension character is emitted in
/// its short form, and the following character is left unconsumed: the end
/// of the scan is right after the lead, so the next scan still sees
/// whatever came after it.
pub proof fn lemma_short_operator_keeps_next_char(src: Seq<char>, i: int)
    requires
        0 <= i < src.len(),
        scan::is_operator_lead(src[i]),
        i + 1 < src.len() ==> src[i + 1] != scan::operator_extension(src[i]),
    ensures
        scan::scan_at(src, i).kind == ScanKind::Emit(scan::short_operator_kind(src[i])),
        scan::scan_at(src, i).start == i,
        scan::scan_at(src, i).end == i + 1,
{
}

/// An operator lead followed by its extension character is emitted in its
/// long form, with a lexeme of exactly the two characters; and when no
/// newline stands before or inside it, the reported column equals the
/// count of characters consumed, leading whitespace included.
pub proof fn lemma_long_operator_takes_both_chars(src: Seq<char>, i: int)
    requires
        0 <= i,
        i + 1 < src.len(),
        scan::is_operator_lead(src[i]),
        src[i + 1] == scan::operator_extension(src[i]),
    ensures
        scan::scan_at(src, i).kind == ScanKind::Emit(scan::long_operator_kind(src[i])),
        scan::scan_at(src, i).start == i,
        scan::scan_at(src, i).end == i + 2,
        src.subrange(i, i + 2) == seq![src[i], src[i + 1]],
        (forall|j: int| 0 <= j < i + 2 ==> src[j] != '\n') ==> scan::col_at(src, i + 2) == i + 2,
{
    assert(src.subrange(i, i + 2) =~= seq![src[i], src[i + 1]]);
    if forall|j: int| 0 <= j < i + 2 ==> src[j] != '\n' {
        lemma_column_counts_consumed(src, i + 2);
    }
}

/// Keyword matching applies to the whole maximal identifier run: an
/// identifier-start character begins a token whose lexeme is the entire
/// unbroken run of identifier characters — the first character after the
/// token, if any, is not an identifier character — and only that whole
/// lexeme is matched against the keyword set.
pub proof fn lemma_keyword_matches_whole_run(src: Seq<char>, i: int)
    requires
        0 <= i < src.len(),
        scan::is_ident_start_char(src[i]),
    ensures
        ({
            let e = scan::ident_end(src, i + 1);
            &&& scan::scan_at(src, i).kind == ScanKind::Emit(
                scan::keyword_kind(src.subrange(i, e)),
            )
            &&& scan::scan_at(src, i).start == i
            &&& scan::scan_at(src, i).end == e
            &&& i < e
            &&& forall|j: int| i <= j < e ==> scan::is_ident_char(#[trigger] src[j])
            &&& e == src.len() || !scan::is_ident_char(src[e])
        }),
{
    scan::lemma_ident_end_props(src, i + 1);
}

/// A run of statement terminators coalesces into a single token: from a
/// `;` or a newline the scanner emits one `EndStatement` whose lexeme
/// extends through the entire maximal run of `;` and newline characters,
/// and the character ending the run, if any, is not a terminator.
pub proof fn lemma_terminators_coalesce(src: Seq<char>, i: int)
    requires
        0 <= i < src.len(),
        scan::is_terminator_char(src[i]),
    ensures
        ({
            let e = scan::terminator_end(src, i + 1);
            &&& scan::scan_at(src, i).kind == ScanKind::Emit(TokenType::EndStatement)
            &&& scan::scan_at(src, i).start == i
            &&& scan::scan_at(src, i).end == e
            &&& i < e
            &&& forall|j: int| i <= j < e ==> scan::is_terminator_char(#[trigger] src[j])
            &&& e == src.len() || !scan::is_terminator_char(src[e])
        }),
{
    scan::lemma_terminator_end_props(src, i + 1);
}

} // verus!
