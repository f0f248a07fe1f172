//! Finding the amount of an invoice in the text of a document.
//!
//! Four searches are tried in a fixed order and the first that finds an
//! amount decides: the total of the invoice near a "total" keyword, a
//! labelled decimal number, a written-out numeral (estimated by magnitude
//! only), and a number behind a currency sign.

use vstd::prelude::*;
use crate::amount::{larger, parse_amount, Amount};
use crate::file_service::{document_name, UNNAMED_DOCUMENT};
use crate::naming_engine::{suggested_name, NamingEngine};
use crate::path::last_component;
use crate::pattern::{all_captures, first_capture, search_all, search_first};
use crate::text::{
    chars_of, contains_text, find_char, find_text, lines_of, optional_view, optional_views,
    split_lines, string_of, vec_views, with_reason,
};
use crate::types::{InvoiceInfo, InvoiceInfoView};

verus! {

/// A number behind the yen sign.
pub const YEN_SIGN_NUMBER: &'static str = r"¥(\d+(?:\.\d{2})?)";

/// A number behind the full-width yen sign.
pub const WIDE_YEN_SIGN_NUMBER: &'static str = r"￥(\d+(?:\.\d{2})?)";

/// A number in front of the currency unit.
pub const NUMBER_BEFORE_UNIT: &'static str = r"(\d+(?:\.\d{2})?)元";

/// A number of at most six digits in front of the currency unit.
pub const SHORT_NUMBER_BEFORE_UNIT: &'static str = r"(\d{1,6}(?:\.\d{2})?)元";

/// A number with thousands separators in front of the currency unit.
pub const GROUPED_NUMBER_BEFORE_UNIT: &'static str = r"(\d+(?:,\d{3})*(?:\.\d{2})?)元";

/// A number labelled "amount".
pub const LABEL_AMOUNT: &'static str = r"金额[：:]\s*(\d+(?:\.\d{2})?)";

/// A number labelled "subtotal".
pub const LABEL_SUBTOTAL: &'static str = r"总计[：:]\s*(\d+(?:\.\d{2})?)";

/// A number labelled "total".
pub const LABEL_TOTAL: &'static str = r"合计[：:]\s*(\d+(?:\.\d{2})?)";

/// A number labelled "payable".
pub const LABEL_PAYABLE: &'static str = r"应付[：:]\s*(\d+(?:\.\d{2})?)";

/// A number labelled "price-tax total".
pub const LABEL_PRICE_TAX_TOTAL: &'static str = r"价税合计[：:]\s*(\d+(?:\.\d{2})?)";

/// A number labelled "total amount".
pub const LABEL_TOTAL_AMOUNT: &'static str = r"总金额[：:]\s*(\d+(?:\.\d{2})?)";

/// A run of everyday numerals in front of the currency unit.
pub const PLAIN_NUMERAL: &'static str = r"([一二三四五六七八九十百千万]+)元";

/// A run of financial numerals in front of the currency unit.
pub const FINANCIAL_NUMERAL: &'static str = r"([壹贰叁肆伍陆柒捌玖拾佰仟万]+)元";

/// A number behind the dollar sign.
pub const DOLLAR_SIGN_NUMBER: &'static str = r"\$(\d+(?:\.\d{2})?)";

/// A number behind the code RMB.
pub const RMB_NUMBER: &'static str = r"RMB\s*(\d+(?:\.\d{2})?)";

/// A number behind the code CNY.
pub const CNY_NUMBER: &'static str = r"CNY\s*(\d+(?:\.\d{2})?)";

/// The views of a list of string slices, in order.
pub open spec fn pattern_views(v: Seq<&'static str>) -> Seq<Seq<char>> {
    Seq::new(v.len(), |i: int| v[i]@)
}

/// The patterns by which an amount is looked for on a line that shows no
/// number behind a yen sign, in order of preference.
pub open spec fn line_patterns() -> Seq<Seq<char>> {
    seq![NUMBER_BEFORE_UNIT@, LABEL_AMOUNT@, LABEL_TOTAL@]
}

/// The patterns of the labelled-decimal search, in order of preference.
pub open spec fn labelled_patterns() -> Seq<Seq<char>> {
    seq![
        LABEL_AMOUNT@,
        LABEL_SUBTOTAL@,
        LABEL_TOTAL@,
        LABEL_PAYABLE@,
        LABEL_PRICE_TAX_TOTAL@,
        LABEL_TOTAL_AMOUNT@,
        SHORT_NUMBER_BEFORE_UNIT@,
        GROUPED_NUMBER_BEFORE_UNIT@,
    ]
}

/// The patterns of the written-numeral search, in order of preference.
pub open spec fn numeral_patterns() -> Seq<Seq<char>> {
    seq![PLAIN_NUMERAL@, FINANCIAL_NUMERAL@]
}

/// The patterns of the currency-sign search, in order of preference.
pub open spec fn currency_patterns() -> Seq<Seq<char>> {
    seq![WIDE_YEN_SIGN_NUMBER@, YEN_SIGN_NUMBER@, DOLLAR_SIGN_NUMBER@, RMB_NUMBER@, CNY_NUMBER@]
}

/// The amounts that the captures of one search denote, in order. A capture
/// that denotes no amount is passed over.
pub open spec fn captured_amounts(captures: Seq<Option<Seq<char>>>) -> Seq<Amount>
    decreases captures.len(),
{
    if captures.len() == 0 {
        Seq::empty()
    } else {
        let before = captured_amounts(captures.drop_last());
        match captures.last() {
            Some(t) => match parse_amount(t) {
                Some(a) => before.push(a),
                None => before,
            },
            None => before,
        }
    }
}

/// The largest of a list of amounts; `None` for the empty list.
pub open spec fn largest(amounts: Seq<Amount>) -> Option<Amount>
    decreases amounts.len(),
{
    if amounts.len() == 0 {
        None
    } else {
        match largest(amounts.drop_last()) {
            Some(m) => Some(larger(m, amounts.last())),
            None => Some(amounts.last()),
        }
    }
}

/// The amount of a line by the patterns from the `k`-th on: the largest
/// amount that the first pattern with any readable capture finds.
pub open spec fn largest_by_patterns(patterns: Seq<Seq<char>>, line: Seq<char>, k: int) -> Option<
    Amount,
>
    decreases patterns.len() - k,
{
    if k < 0 || k >= patterns.len() {
        None
    } else {
        match largest(captured_amounts(all_captures(patterns[k], line))) {
            Some(a) => Some(a),
            None => largest_by_patterns(patterns, line, k + 1),
        }
    }
}

/// The larger of two amounts of which either may be missing.
pub open spec fn larger_of(a: Option<Amount>, b: Option<Amount>) -> Option<Amount> {
    match a {
        Some(x) => match b {
            Some(y) => Some(larger(x, y)),
            None => Some(x),
        },
        None => b,
    }
}

/// The amounts that stand behind a yen sign on a line, behind the sign of
/// either width.
pub open spec fn yen_sign_amounts(line: Seq<char>) -> Seq<Amount> {
    captured_amounts(all_captures(YEN_SIGN_NUMBER@, line)) + captured_amounts(
        all_captures(WIDE_YEN_SIGN_NUMBER@, line),
    )
}

/// The largest of the amounts that stand behind a yen sign on a line.
pub open spec fn yen_sign_amount(line: Seq<char>) -> Option<Amount> {
    larger_of(
        largest(captured_amounts(all_captures(YEN_SIGN_NUMBER@, line))),
        largest(captured_amounts(all_captures(WIDE_YEN_SIGN_NUMBER@, line))),
    )
}

/// The amount found on one line: the largest of the numbers behind a yen
/// sign, or failing any, what the other line patterns find.
pub open spec fn line_amount(line: Seq<char>) -> Option<Amount> {
    match yen_sign_amount(line) {
        Some(a) => Some(a),
        None => largest_by_patterns(line_patterns(), line, 0),
    }
}

/// `largest` gives an amount of the list that no other exceeds, and gives
/// none only for the empty list.
pub proof fn lemma_largest_is_maximum(amounts: Seq<Amount>)
    ensures
        largest(amounts) is None <==> amounts.len() == 0,
        largest(amounts) matches Some(m) ==> amounts.contains(m) && forall|i: int|
            0 <= i < amounts.len() ==> (#[trigger] amounts[i]).cents <= m.cents,
    decreases amounts.len(),
{
    if amounts.len() > 0 {
        let before = amounts.drop_last();
        lemma_largest_is_maximum(before);
        let m = largest(amounts)->0;
        match largest(before) {
            Some(b) => {
                if m == b {
                    let w = choose|i: int| 0 <= i < before.len() && before[i] == b;
                    assert(amounts[w] == m);
                } else {
                    assert(amounts[amounts.len() - 1] == m);
                }
                assert forall|i: int| 0 <= i < amounts.len() implies (#[trigger] amounts[i]).cents
                    <= m.cents by {
                    if i < before.len() {
                        assert(before[i] == amounts[i]);
                    }
                }
            },
            None => {
                assert(amounts[amounts.len() - 1] == m);
            },
        }
    }
}

/// Where several numbers stand behind yen signs on a line, the largest of
/// them all is taken, whichever width of the sign each stands behind; none
/// is taken only where there is none.
pub proof fn lemma_yen_sign_amount_is_maximum(line: Seq<char>)
    ensures
        yen_sign_amount(line) is None <==> yen_sign_amounts(line).len() == 0,
        yen_sign_amount(line) matches Some(m) ==> yen_sign_amounts(line).contains(m) && forall|
            i: int,
        |
            0 <= i < yen_sign_amounts(line).len() ==> (#[trigger] yen_sign_amounts(line)[i]).cents
                <= m.cents,
{
    let narrow = captured_amounts(all_captures(YEN_SIGN_NUMBER@, line));
    let wide = captured_amounts(all_captures(WIDE_YEN_SIGN_NUMBER@, line));
    let both = yen_sign_amounts(line);
    lemma_largest_is_maximum(narrow);
    lemma_largest_is_maximum(wide);
    if yen_sign_amount(line) is Some {
        let m = yen_sign_amount(line)->0;
        if largest(narrow) == Some(m) {
            let w = choose|i: int| 0 <= i < narrow.len() && narrow[i] == m;
            assert(both[w] == m);
        } else {
            let w = choose|i: int| 0 <= i < wide.len() && wide[i] == m;
            assert(both[narrow.len() + w] == m);
        }
        assert forall|i: int| 0 <= i < both.len() implies (#[trigger] both[i]).cents
            <= m.cents by {
            if i < narrow.len() {
                assert(both[i] == narrow[i]);
            } else {
                assert(both[i] == wide[i - narrow.len()]);
            }
        }
    }
}

/// The larger of two amounts of which either may be missing.
pub fn larger_amount(a: Option<Amount>, b: Option<Amount>) -> (best: Option<Amount>)
    ensures
        best == larger_of(a, b),
{
    match a {
        Some(x) => match b {
            Some(y) => if x.cents >= y.cents {
                Some(x)
            } else {
                Some(y)
            },
            None => Some(x),
        },
        None => b,
    }
}

/// The largest amount among the captures of one search.
pub fn largest_amount(captures: &Vec<Option<String>>) -> (best: Option<Amount>)
    ensures
        best == largest(captured_amounts(optional_views(captures@))),
{
    let ghost views = optional_views(captures@);
    let mut best: Option<Amount> = None;
    let mut i: usize = 0;
    while i < captures.len()
        invariant
            i <= captures.len(),
            views == optional_views(captures@),
            best == largest(captured_amounts(views.take(i as int))),
        decreases captures.len() - i,
    {
        let ghost before = captured_amounts(views.take(i as int));
        proof {
            assert(views.take(i + 1).drop_last() =~= views.take(i as int));
            assert(views.take(i + 1).last() == optional_view(captures@[i as int]));
        }
        match &captures[i] {
            Some(t) => {
                match Amount::parse(t.as_str()) {
                    Some(a) => {
                        proof {
                            assert(before.push(a).drop_last() =~= before);
                        }
                        best =
                        match best {
                            Some(m) => if m.cents >= a.cents {
                                Some(m)
                            } else {
                                Some(a)
                            },
                            None => Some(a),
                        };
                    },
                    None => {},
                }
            },
            None => {},
        }
        i += 1;
    }
    assert(views.take(captures.len() as int) =~= views);
    best
}

/// How the text of a capture is read as an amount.
#[derive(Clone, Copy, Debug, PartialEq, Eq, Structural)]
pub enum Reading {
    /// As a written amount.
    Plain,
    /// As a written amount, once its thousands separators are taken out.
    Grouped,
    /// As a written-out numeral, by its magnitude.
    Magnitude,
}

/// A text without its commas.
pub open spec fn without_commas(s: Seq<char>) -> Seq<char>
    decreases s.len(),
{
    if s.len() == 0 {
        s
    } else if s.last() == ',' {
        without_commas(s.drop_last())
    } else {
        without_commas(s.drop_last()).push(s.last())
    }
}

/// The estimate for a written-out numeral: ten thousand units where the
/// glyph for ten thousand occurs, else a thousand where a glyph for
/// thousand occurs, else a hundred where a glyph for hundred occurs. For
/// thousand and hundred the everyday and the financial glyph count alike.
/// The numeral is not converted; without any of these there is no
/// estimate.
pub open spec fn magnitude(numeral: Seq<char>) -> Option<Amount> {
    if numeral.contains('万') {
        Some(Amount { cents: 1_000_000 })
    } else if numeral.contains('千') || numeral.contains('仟') {
        Some(Amount { cents: 100_000 })
    } else if numeral.contains('百') || numeral.contains('佰') {
        Some(Amount { cents: 10_000 })
    } else {
        None
    }
}

/// The amount that a capture denotes under a way of reading it.
pub open spec fn read_capture(how: Reading, capture: Seq<char>) -> Option<Amount> {
    match how {
        Reading::Plain => parse_amount(capture),
        Reading::Grouped => parse_amount(without_commas(capture)),
        Reading::Magnitude => magnitude(capture),
    }
}

/// What a pattern yields from a text: the reading of its first capture,
/// where it has one that can be read.
pub open spec fn pattern_reading(pattern: Seq<char>, text: Seq<char>, how: Reading) -> Option<
    Amount,
> {
    match first_capture(pattern, text) {
        Some(t) => read_capture(how, t),
        None => None,
    }
}

/// The amount of a text by the patterns from the `k`-th on: what the first
/// pattern whose first capture can be read denotes.
pub open spec fn first_by_patterns(
    patterns: Seq<Seq<char>>,
    text: Seq<char>,
    how: Reading,
    k: int,
) -> Option<Amount>
    decreases patterns.len() - k,
{
    if k < 0 || k >= patterns.len() {
        None
    } else {
        match pattern_reading(patterns[k], text, how) {
            Some(a) => Some(a),
            None => first_by_patterns(patterns, text, how, k + 1),
        }
    }
}

/// What the labelled-decimal search finds.
pub open spec fn labelled_amount(text: Seq<char>) -> Option<Amount> {
    first_by_patterns(labelled_patterns(), text, Reading::Grouped, 0)
}

/// What the written-numeral search finds.
pub open spec fn written_amount(text: Seq<char>) -> Option<Amount> {
    first_by_patterns(numeral_patterns(), text, Reading::Magnitude, 0)
}

/// What the currency-sign search finds.
pub open spec fn currency_amount(text: Seq<char>) -> Option<Amount> {
    first_by_patterns(currency_patterns(), text, Reading::Plain, 0)
}

/// A line that names a total.
pub open spec fn is_total_line(line: Seq<char>) -> bool {
    contains_text(line, "价税合计"@) || contains_text(line, "合计"@)
}

/// A line that holds an amount written out in words: it shows the glyph
/// for the whole unit, the one for the tenth and the one for "exact".
pub open spec fn is_written_out_line(line: Seq<char>) -> bool {
    line.contains('圆') && line.contains('角') && line.contains('整')
}

/// The amount of the first line from `j` on, before `end`, that has one.
pub open spec fn window_amount(lines: Seq<Seq<char>>, j: int, end: int) -> Option<Amount>
    decreases end - j,
{
    if j < 0 || j >= end || j >= lines.len() {
        None
    } else {
        match line_amount(lines[j]) {
            Some(a) => Some(a),
            None => window_amount(lines, j + 1, end),
        }
    }
}

/// The amount near the first total line from `i` on that has one near it:
/// on the line itself or on one of the two lines after it.
pub open spec fn total_line_scan(lines: Seq<Seq<char>>, i: int) -> Option<Amount>
    decreases lines.len() - i,
{
    if i < 0 || i >= lines.len() {
        None
    } else {
        let here = if is_total_line(lines[i]) {
            window_amount(lines, i, i + 3)
        } else {
            None
        };
        match here {
            Some(a) => Some(a),
            None => total_line_scan(lines, i + 1),
        }
    }
}

/// The amount on the first written-out line from `i` on that has one.
pub open spec fn written_out_scan(lines: Seq<Seq<char>>, i: int) -> Option<Amount>
    decreases lines.len() - i,
{
    if i < 0 || i >= lines.len() {
        None
    } else {
        let here = if is_written_out_line(lines[i]) {
            line_amount(lines[i])
        } else {
            None
        };
        match here {
            Some(a) => Some(a),
            None => written_out_scan(lines, i + 1),
        }
    }
}

/// What the contextual total search finds: the amount near a total line,
/// else the amount on a written-out line.
pub open spec fn total_amount(text: Seq<char>) -> Option<Amount> {
    let lines = lines_of(text);
    match total_line_scan(lines, 0) {
        Some(a) => Some(a),
        None => written_out_scan(lines, 0),
    }
}

/// The amount of a document: what the first of the four searches that
/// finds anything finds.
pub open spec fn extracted_amount(text: Seq<char>) -> Option<Amount> {
    match total_amount(text) {
        Some(a) => Some(a),
        None => match labelled_amount(text) {
            Some(a) => Some(a),
            None => match written_amount(text) {
                Some(a) => Some(a),
                None => currency_amount(text),
            },
        },
    }
}

/// Takes the commas out of a text.
pub fn strip_commas(s: &Vec<char>) -> (out: Vec<char>)
    ensures
        out@ == without_commas(s@),
{
    let mut out: Vec<char> = Vec::new();
    let mut i: usize = 0;
    while i < s.len()
        invariant
            i <= s.len(),
            out@ == without_commas(s@.take(i as int)),
        decreases s.len() - i,
    {
        proof {
            assert(s@.take(i + 1).drop_last() =~= s@.take(i as int));
        }
        if s[i] != ',' {
            out.push(s[i]);
        }
        i += 1;
    }
    assert(s@.take(s.len() as int) =~= s@);
    out
}

/// Estimates a written-out numeral by its magnitude.
pub fn estimate_magnitude(numeral: &str) -> (estimate: Option<Amount>)
    ensures
        estimate == magnitude(numeral@),
{
    let glyphs = chars_of(numeral);
    if find_char(&glyphs, '万') {
        Some(Amount { cents: 1_000_000 })
    } else if find_char(&glyphs, '千') || find_char(&glyphs, '仟') {
        Some(Amount { cents: 100_000 })
    } else if find_char(&glyphs, '百') || find_char(&glyphs, '佰') {
        Some(Amount { cents: 10_000 })
    } else {
        None
    }
}

/// Reads the text of a capture as an amount.
pub fn read_amount(how: Reading, capture: &str) -> (amount: Option<Amount>)
    ensures
        amount == read_capture(how, capture@),
{
    match how {
        Reading::Plain => Amount::parse(capture),
        Reading::Grouped => Amount::parse_chars(&strip_commas(&chars_of(capture))),
        Reading::Magnitude => estimate_magnitude(capture),
    }
}

/// Tries the patterns in order on a text and reads the first capture of
/// each; the first amount so read is the answer.
pub fn search_patterns(patterns: &Vec<&'static str>, text: &str, how: Reading) -> (found: Option<
    Amount,
>)
    ensures
        found == first_by_patterns(pattern_views(patterns@), text@, how, 0),
{
    let ghost views = pattern_views(patterns@);
    let mut k: usize = 0;
    while k < patterns.len()
        invariant
            k <= patterns.len(),
            views == pattern_views(patterns@),
            first_by_patterns(views, text@, how, 0) == first_by_patterns(
                views,
                text@,
                how,
                k as int,
            ),
        decreases patterns.len() - k,
    {
        assert(views[k as int] == patterns@[k as int]@);
        match search_first(patterns[k], text) {
            Some(capture) => {
                match read_amount(how, capture.as_str()) {
                    Some(a) => {
                        return Some(a);
                    },
                    None => {},
                }
            },
            None => {},
        }
        k += 1;
    }
    None
}

/// What precedes the reason where the text of a document could not be
/// had.
pub const EXTRACTION_FAILED: &'static str = "PDF解析失败: ";

/// What the analysis of the document at `path` gives, from the outcome of
/// extracting its text: its amount, its present name and the name
/// suggested for it; or the reason why its text could not be had.
pub open spec fn analysis(path: Seq<char>, extracted: Result<String, String>) -> Result<
    InvoiceInfoView,
    Seq<char>,
> {
    match extracted {
        Err(reason) => Err(EXTRACTION_FAILED@ + reason@),
        Ok(text) => Ok(
            InvoiceInfoView {
                amount: extracted_amount(text@),
                original_filename: document_name(path),
                suggested_filename: suggested_name(extracted_amount(text@)),
            },
        ),
    }
}

/// The extractor of amounts. It holds no state.
pub struct PdfParser;

impl PdfParser {
    pub fn new() -> PdfParser {
        PdfParser
    }

    /// The amount on one line of text: the largest of the numbers that
    /// stand behind a yen sign of either width; where there is none, the
    /// largest that the first of the other line patterns to find any finds.
    pub fn extract_amount_from_line(&self, line: &str) -> (found: Option<Amount>)
        ensures
            found == line_amount(line@),
    {
        let narrow = largest_amount(&search_all(YEN_SIGN_NUMBER, line));
        let wide = largest_amount(&search_all(WIDE_YEN_SIGN_NUMBER, line));
        match larger_amount(narrow, wide) {
            Some(a) => {
                return Some(a);
            },
            None => {},
        }
        let patterns: Vec<&'static str> = vec![NUMBER_BEFORE_UNIT, LABEL_AMOUNT, LABEL_TOTAL];
        assert(pattern_views(patterns@) =~= line_patterns());
        let mut k: usize = 0;
        while k < patterns.len()
            invariant
                k <= patterns.len(),
                pattern_views(patterns@) == line_patterns(),
                line_amount(line@) == largest_by_patterns(line_patterns(), line@, k as int),
            decreases patterns.len() - k,
        {
            assert(pattern_views(patterns@)[k as int] == patterns@[k as int]@);
            let captures = search_all(patterns[k], line);
            match largest_amount(&captures) {
                Some(a) => {
                    return Some(a);
                },
                None => {},
            }
            k += 1;
        }
        None
    }

    /// The contextual total search. A line that names a total is looked at
    /// together with the two lines after it; failing that, a line with a
    /// written-out amount is looked at by itself.
    pub fn parse_total_amount(&self, text: &str) -> (found: Option<Amount>)
        ensures
            found == total_amount(text@),
    {
        let lines = split_lines(&chars_of(text));
        let ghost views = vec_views(lines@);
        let price_tax_total = chars_of("价税合计");
        let total = chars_of("合计");
        let n = lines.len();
        let mut i: usize = 0;
        while i < n
            invariant
                i <= n,
                n == lines.len(),
                views == vec_views(lines@),
                views == lines_of(text@),
                price_tax_total@ == "价税合计"@,
                total@ == "合计"@,
                total_line_scan(views, 0) == total_line_scan(views, i as int),
            decreases n - i,
        {
            assert(views[i as int] == lines@[i as int]@);
            if find_text(&lines[i], &price_tax_total) || find_text(&lines[i], &total) {
                let end: usize = if n - i < 3 {
                    n
                } else {
                    i + 3
                };
                let mut j: usize = i;
                while j < end
                    invariant
                        i <= j <= end <= n,
                        n == lines.len(),
                        end == i + 3 || end == n,
                        end <= i + 3,
                        views == vec_views(lines@),
                        views == lines_of(text@),
                        is_total_line(views[i as int]),
                        total_line_scan(views, 0) == total_line_scan(views, i as int),
                        window_amount(views, i as int, i + 3) == window_amount(
                            views,
                            j as int,
                            i + 3,
                        ),
                    decreases end - j,
                {
                    assert(views[j as int] == lines@[j as int]@);
                    let line = string_of(&lines[j]);
                    match self.extract_amount_from_line(line.as_str()) {
                        Some(a) => {
                            return Some(a);
                        },
                        None => {},
                    }
                    j += 1;
                }
                assert(window_amount(views, end as int, i + 3) is None);
            }
            i += 1;
        }
        let mut i: usize = 0;
        while i < n
            invariant
                i <= n,
                n == lines.len(),
                views == vec_views(lines@),
                views == lines_of(text@),
                total_line_scan(views, 0) is None,
                written_out_scan(views, 0) == written_out_scan(views, i as int),
            decreases n - i,
        {
            assert(views[i as int] == lines@[i as int]@);
            if find_char(&lines[i], '圆') && find_char(&lines[i], '角') && find_char(
                &lines[i],
                '整',
            ) {
                let line = string_of(&lines[i]);
                match self.extract_amount_from_line(line.as_str()) {
                    Some(a) => {
                        return Some(a);
                    },
                    None => {},
                }
            }
            i += 1;
        }
        None
    }

    /// The labelled-decimal search.
    pub fn parse_decimal_amount(&self, text: &str) -> (found: Option<Amount>)
        ensures
            found == labelled_amount(text@),
    {
        let patterns: Vec<&'static str> = vec![
            LABEL_AMOUNT,
            LABEL_SUBTOTAL,
            LABEL_TOTAL,
            LABEL_PAYABLE,
            LABEL_PRICE_TAX_TOTAL,
            LABEL_TOTAL_AMOUNT,
            SHORT_NUMBER_BEFORE_UNIT,
            GROUPED_NUMBER_BEFORE_UNIT,
        ];
        assert(pattern_views(patterns@) =~= labelled_patterns());
        search_patterns(&patterns, text, Reading::Grouped)
    }

    /// The written-numeral search: an estimate by magnitude, not a
    /// conversion.
    pub fn parse_chinese_amount(&self, text: &str) -> (found: Option<Amount>)
        ensures
            found == written_amount(text@),
    {
        let patterns: Vec<&'static str> = vec![PLAIN_NUMERAL, FINANCIAL_NUMERAL];
        assert(pattern_views(patterns@) =~= numeral_patterns());
        search_patterns(&patterns, text, Reading::Magnitude)
    }

    /// The currency-sign search.
    pub fn parse_currency_amount(&self, text: &str) -> (found: Option<Amount>)
        ensures
            found == currency_amount(text@),
    {
        let patterns: Vec<&'static str> = vec![
            WIDE_YEN_SIGN_NUMBER,
            YEN_SIGN_NUMBER,
            DOLLAR_SIGN_NUMBER,
            RMB_NUMBER,
            CNY_NUMBER,
        ];
        assert(pattern_views(patterns@) =~= currency_patterns());
        search_patterns(&patterns, text, Reading::Plain)
    }

    /// The amount of a document, from its text. The four searches run in
    /// order and the first that finds an amount decides. That none finds
    /// one is an ordinary outcome.
    pub fn extract_amount_from_text(&self, text: &str) -> (found: Option<Amount>)
        ensures
            found == extracted_amount(text@),
    {
        if let Some(amount) = self.parse_total_amount(text) {
            return Some(amount);
        }
        if let Some(amount) = self.parse_decimal_amount(text) {
            return Some(amount);
        }
        if let Some(amount) = self.parse_chinese_amount(text) {
            return Some(amount);
        }
        self.parse_currency_amount(text)
    }

    /// The text of a document, from the outcome of extracting it: the
    /// text as it is, or the reason of the failure behind a fixed prefix.
    pub fn extract_text_from_pdf(&self, extracted: &Result<String, String>) -> (text: Result<
        String,
        String,
    >)
        ensures
            match text {
                Ok(t) => extracted matches Ok(given) && t@ == given@,
                Err(e) => extracted matches Err(reason) && e@ == EXTRACTION_FAILED@ + reason@,
            },
    {
        match extracted {
            Ok(text) => Ok(text.clone()),
            Err(reason) => Err(with_reason(EXTRACTION_FAILED, reason.as_str())),
        }
    }

    /// Analyses the document at `file_path`, given the outcome of
    /// extracting its text.
    pub fn analyze_pdf(&self, file_path: &str, extracted: &Result<String, String>) -> (info: Result<
        InvoiceInfo,
        String,
    >)
        ensures
            match info {
                Ok(found) => analysis(file_path@, *extracted) == Ok::<InvoiceInfoView, Seq<char>>(
                    found@,
                ),
                Err(reason) => analysis(file_path@, *extracted) == Err::<
                    InvoiceInfoView,
                    Seq<char>,
                >(reason@),
            },
    {
        let text = match self.extract_text_from_pdf(extracted) {
            Ok(text) => text,
            Err(reason) => {
                return Err(reason);
            },
        };
        let amount = self.extract_amount_from_text(text.as_str());
        let original_filename = match last_component(file_path) {
            Some(name) => name,
            None => string_of(&chars_of(UNNAMED_DOCUMENT)),
        };
        let suggested_filename = NamingEngine::new().suggest(amount);
        Ok(InvoiceInfo { amount, original_filename, suggested_filename })
    }
}

/// A search over patterns answers with the reading of the first pattern
/// that has one: patterns before it count for nothing, patterns after it
/// are not consulted.
pub proof fn lemma_first_reading_decides(
    patterns: Seq<Seq<char>>,
    text: Seq<char>,
    how: Reading,
    k: int,
)
    requires
        0 <= k < patterns.len(),
        pattern_reading(patterns[k], text, how) is Some,
        forall|j: int| 0 <= j < k ==> pattern_reading(#[trigger] patterns[j], text, how) is None,
    ensures
        first_by_patterns(patterns, text, how, 0) == pattern_reading(patterns[k], text, how),
{
    lemma_first_reading_from(patterns, text, how, k, 0);
}

proof fn lemma_first_reading_from(
    patterns: Seq<Seq<char>>,
    text: Seq<char>,
    how: Reading,
    k: int,
    from: int,
)
    requires
        0 <= from <= k < patterns.len(),
        pattern_reading(patterns[k], text, how) is Some,
        forall|j: int| 0 <= j < k ==> pattern_reading(#[trigger] patterns[j], text, how) is None,
    ensures
        first_by_patterns(patterns, text, how, from) == pattern_reading(patterns[k], text, how),
    decreases k - from,
{
    if from < k {
        assert(pattern_reading(patterns[from], text, how) is None);
        lemma_first_reading_from(patterns, text, how, k, from + 1);
    }
}

/// A text in which only the currency-sign search finds anything has the
/// amount that stands behind the currency sign: the reading of the first
/// currency pattern that has one.
pub proof fn lemma_sole_currency_number(text: Seq<char>, k: int)
    requires
        total_amount(text) is None,
        labelled_amount(text) is None,
        written_amount(text) is None,
        0 <= k < currency_patterns().len(),
        pattern_reading(currency_patterns()[k], text, Reading::Plain) is Some,
        forall|j: int|
            0 <= j < k ==> pattern_reading(#[trigger] currency_patterns()[j], text, Reading::Plain)
                is None,
    ensures
        extracted_amount(text) == pattern_reading(currency_patterns()[k], text, Reading::Plain),
{
    lemma_first_reading_decides(currency_patterns(), text, Reading::Plain, k);
}

/// The searches have a fixed priority: what an earlier search finds
/// stands, whatever the later ones would find.
pub proof fn lemma_search_priority(text: Seq<char>)
    ensures
        total_amount(text) is Some ==> extracted_amount(text) == total_amount(text),
        total_amount(text) is None && labelled_amount(text) is Some ==> extracted_amount(text)
            == labelled_amount(text),
        total_amount(text) is None && labelled_amount(text) is None && written_amount(text)
            is Some ==> extracted_amount(text) == written_amount(text),
        total_amount(text) is None && labelled_amount(text) is None && written_amount(text)
            is None ==> extracted_amount(text) == currency_amount(text),
{
}

/// A total line decides before any currency sign elsewhere: where line `i`
/// is the first line of the text that names a total and an amount stands on
/// it, that amount is the document's.
pub proof fn lemma_total_line_decides(text: Seq<char>, i: int)
    requires
        0 <= i < lines_of(text).len(),
        is_total_line(lines_of(text)[i]),
        line_amount(lines_of(text)[i]) is Some,
        forall|k: int| 0 <= k < i ==> !is_total_line(#[trigger] lines_of(text)[k]),
    ensures
        extracted_amount(text) == line_amount(lines_of(text)[i]),
{
    lemma_total_line_scan_from(lines_of(text), i, 0);
}

proof fn lemma_total_line_scan_from(lines: Seq<Seq<char>>, i: int, from: int)
    requires
        0 <= from <= i < lines.len(),
        is_total_line(lines[i]),
        line_amount(lines[i]) is Some,
        forall|k: int| 0 <= k < i ==> !is_total_line(#[trigger] lines[k]),
    ensures
        total_line_scan(lines, from) == line_amount(lines[i]),
    decreases i - from,
{
    if from < i {
        assert(!is_total_line(lines[from]));
        lemma_total_line_scan_from(lines, i, from + 1);
    }
}

} // verus!
