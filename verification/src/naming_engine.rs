//! Names for invoices: the name that an amount suggests, and the batch
//! pass that keeps the names of one batch apart.

use vstd::prelude::*;
use crate::amount::{amount_text, lemma_amount_text_round_trip, parse_amount, Amount};
use crate::file_service::{is_taken, is_valid_filename, resolves_to, sanitized, FileService};
use crate::filename::{
    extension_of_path, is_file_name, last_dot, numbered, numbered_name, path_extension, path_stem,
    stem_of_path,
};
use crate::numeral::{
    decimal, digit_char, is_digit, is_float_literal, is_float_text, lemma_decimal_denotes,
    lemma_decimal_injective, lemma_digit_char,
};
use crate::path::{final_component, join_path, joined, parent_directory, parent_of};
use crate::text::{
    chars_of, ends_with, has_suffix, optional_view, prefix_of, push_all, same_text, string_of,
    string_views, vec_views,
};
use crate::types::{PdfFile, RenamePreview};

verus! {

/// What follows the amount in the name of an invoice.
pub const INVOICE_SUFFIX: &'static str = "元_发票.pdf";

/// What follows the amount and its currency unit.
pub const INVOICE_TAIL: &'static str = "_发票.pdf";

/// The currency unit.
pub const CURRENCY_UNIT: &'static str = "元";

/// The name of an invoice whose amount is not known.
pub const UNKNOWN_AMOUNT_NAME: &'static str = "未知金额_发票.pdf";

/// The stem given to a name that has none.
pub const DEFAULT_STEM: &'static str = "file";

/// The extension given to a name that has none.
pub const DEFAULT_EXTENSION: &'static str = "pdf";

/// The name for an invoice of `cents` hundredths: the amount with two
/// decimal places, the currency unit, and the fixed ending.
pub open spec fn generated_name(cents: nat) -> Seq<char> {
    amount_text(cents) + INVOICE_SUFFIX@
}

/// The name suggested for a document with this amount, or with none.
pub open spec fn suggested_name(amount: Option<Amount>) -> Seq<char> {
    match amount {
        Some(a) => generated_name(a.cents as nat),
        None => UNKNOWN_AMOUNT_NAME@,
    }
}

/// The names suggested for the documents of a batch, in order.
pub open spec fn suggested_names(files: Seq<PdfFile>) -> Seq<Seq<char>> {
    Seq::new(files.len(), |i: int| suggested_name(files[i].amount))
}

/// What stands before the fixed ending in the name of an invoice.
pub open spec fn numeric_portion(name: Seq<char>) -> Option<Seq<char>> {
    if ends_with(name, INVOICE_SUFFIX@) {
        Some(name.take(name.len() - INVOICE_SUFFIX@.len()))
    } else {
        None
    }
}

/// How often `name` occurs in `names`.
pub open spec fn count_of(names: Seq<Seq<char>>, name: Seq<char>) -> nat
    decreases names.len(),
{
    if names.len() == 0 {
        0
    } else {
        count_of(names.drop_last(), name) + if names.last() == name {
            1nat
        } else {
            0nat
        }
    }
}

/// Which occurrence of its name the `i`-th name of a batch is: 1 for the
/// first, 2 for the second, and so on.
pub open spec fn occurrence(names: Seq<Seq<char>>, i: int) -> nat {
    count_of(names.take(i + 1), names[i])
}

/// The stem of the final component of a name, or `file` where it has
/// none.
pub open spec fn stem_or_default(name: Seq<char>) -> Seq<char> {
    match path_stem(name) {
        Some(s) => s,
        None => DEFAULT_STEM@,
    }
}

/// The extension of the final component of a name, or `pdf` where it has
/// none.
pub open spec fn extension_or_default(name: Seq<char>) -> Seq<char> {
    match path_extension(name) {
        Some(e) => e,
        None => DEFAULT_EXTENSION@,
    }
}

/// The name that the `k`-th occurrence of `base` gets in a batch: the
/// first keeps the name, a later one gets `_<k>` before the extension.
pub open spec fn batch_name(base: Seq<char>, k: nat) -> Seq<char> {
    if k <= 1 {
        base
    } else {
        numbered(stem_or_default(base), k, extension_or_default(base))
    }
}

/// The names of a batch after the pass that keeps them apart: each name
/// is numbered by its occurrence, in the order of the batch.
pub open spec fn resolved_batch(names: Seq<Seq<char>>) -> Seq<Seq<char>> {
    Seq::new(names.len(), |i: int| batch_name(names[i], occurrence(names, i)))
}

/// A name of the form that an amount gives: a number, the currency unit
/// and the fixed ending.
pub open spec fn has_amount_form(name: Seq<char>) -> bool {
    ends_with(name, INVOICE_TAIL@) && {
        let amount_part = name.take(name.len() - INVOICE_TAIL@.len());
        ends_with(amount_part, CURRENCY_UNIT@) && is_float_text(
            amount_part.take(amount_part.len() - CURRENCY_UNIT@.len()),
        )
    }
}

/// A name that the generator could have made and that is acceptable as a
/// file name.
pub open spec fn is_valid_generated_name(name: Seq<char>) -> bool {
    (has_amount_form(name) || name == UNKNOWN_AMOUNT_NAME@) && is_valid_filename(name)
}

/// The number in a suggested name is the amount it was made from: reading
/// what stands before the fixed ending gives the amount back, to the
/// hundredth.
pub proof fn lemma_suggested_name_round_trip(a: Amount)
    ensures
        numeric_portion(suggested_name(Some(a))) == Some(amount_text(a.cents as nat)),
        parse_amount(numeric_portion(suggested_name(Some(a)))->0) == Some(a),
{
    let name = suggested_name(Some(a));
    let number = amount_text(a.cents as nat);
    assert(name.subrange(name.len() - INVOICE_SUFFIX@.len(), name.len() as int)
        =~= INVOICE_SUFFIX@);
    assert(name.take(name.len() - INVOICE_SUFFIX@.len()) =~= number);
    lemma_amount_text_round_trip(a);
}

/// A name occurs at least once up to its own place.
pub proof fn lemma_occurrence_positive(names: Seq<Seq<char>>, i: int)
    requires
        0 <= i < names.len(),
    ensures
        occurrence(names, i) >= 1,
{
    let upto = names.take(i + 1);
    assert(upto.last() == names[i]);
}

/// A name that does not occur is counted zero times.
pub proof fn lemma_count_of_absent(names: Seq<Seq<char>>, name: Seq<char>)
    requires
        forall|j: int| 0 <= j < names.len() ==> names[j] != name,
    ensures
        count_of(names, name) == 0,
    decreases names.len(),
{
    if names.len() > 0 {
        assert forall|j: int| 0 <= j < names.drop_last().len() implies names.drop_last()[j]
            != name by {
            assert(names.drop_last()[j] == names[j]);
        }
        lemma_count_of_absent(names.drop_last(), name);
    }
}

/// The first of a name in a batch keeps it.
pub proof fn lemma_first_occurrence_unchanged(names: Seq<Seq<char>>, i: int)
    requires
        0 <= i < names.len(),
        forall|j: int| 0 <= j < i ==> names[j] != names[i],
    ensures
        occurrence(names, i) == 1,
        resolved_batch(names)[i] == names[i],
{
    let upto = names.take(i + 1);
    assert(upto.drop_last() =~= names.take(i));
    assert(upto.last() == names[i]);
    lemma_count_of_absent(names.take(i), names[i]);
}

/// A batch whose names all differ comes back unchanged.
pub proof fn lemma_distinct_batch_unchanged(names: Seq<Seq<char>>)
    requires
        forall|i: int, j: int| 0 <= i < j < names.len() ==> names[i] != names[j],
    ensures
        resolved_batch(names) == names,
{
    assert forall|i: int| 0 <= i < names.len() implies resolved_batch(names)[i] == names[i] by {
        lemma_first_occurrence_unchanged(names, i);
    }
    assert(resolved_batch(names) =~= names);
}

/// The `k`-th of a name in a batch, for `k` of two or more, gets `_<k>`
/// before its extension; the first is never renumbered. The number is the
/// running count of the name, which the order of the batch alone decides.
pub proof fn lemma_kth_occurrence_numbered(names: Seq<Seq<char>>, i: int)
    requires
        0 <= i < names.len(),
    ensures
        occurrence(names, i) == 1 ==> resolved_batch(names)[i] == names[i],
        occurrence(names, i) >= 2 ==> resolved_batch(names)[i] == numbered(
            stem_or_default(names[i]),
            occurrence(names, i),
            extension_or_default(names[i]),
        ),
        occurrence(names, i) == 1 + count_of(names.take(i), names[i]),
{
    let upto = names.take(i + 1);
    assert(upto.drop_last() =~= names.take(i));
    assert(upto.last() == names[i]);
}

/// What stands before the fixed ending `_发票.pdf` in a suggested name: the
/// amount and the currency unit, or the words for an unknown amount.
pub open spec fn name_head(amount: Option<Amount>) -> Seq<char> {
    match amount {
        Some(a) => amount_text(a.cents as nat).push('元'),
        None => seq!['未', '知', '金', '额'],
    }
}

/// What follows the head in the name that the `k`-th occurrence of a
/// suggested name gets in a batch.
pub open spec fn batch_tail(k: nat) -> Seq<char> {
    if k <= 1 {
        INVOICE_TAIL@
    } else {
        seq!['_', '发', '票', '_'] + decimal(k) + seq!['.', 'p', 'd', 'f']
    }
}

/// The last point of a text with one more character.
proof fn lemma_last_dot_push(s: Seq<char>, c: char)
    ensures
        last_dot(s.push(c)) == if c == '.' {
            s.len() as int
        } else {
            last_dot(s)
        },
{
    assert(s.push(c).drop_last() =~= s);
}

/// A suggested name is its head and the fixed ending, and its head holds
/// no underscore.
proof fn lemma_suggested_name_shape(amount: Option<Amount>)
    ensures
        suggested_name(amount) == name_head(amount) + INVOICE_TAIL@,
        INVOICE_TAIL@ == seq!['_', '发', '票', '.', 'p', 'd', 'f'],
        forall|i: int| 0 <= i < name_head(amount).len() ==> name_head(amount)[i] != '_',
{
    reveal_strlit("元_发票.pdf");
    reveal_strlit("_发票.pdf");
    reveal_strlit("未知金额_发票.pdf");
    assert(INVOICE_TAIL@ =~= seq!['_', '发', '票', '.', 'p', 'd', 'f']);
    match amount {
        Some(a) => {
            let c = a.cents as nat;
            lemma_decimal_denotes(c / 100);
            lemma_digit_char((c % 100) / 10);
            lemma_digit_char(c % 10);
            assert(suggested_name(amount) =~= name_head(amount) + INVOICE_TAIL@);
            let whole = decimal(c / 100);
            let head = name_head(amount);
            assert forall|i: int| 0 <= i < head.len() implies head[i] != '_' by {
                if i < whole.len() {
                    assert(head[i] == whole[i]);
                    assert(is_digit(whole[i]));
                } else if i == whole.len() {
                    assert(head[i] == '.');
                } else if i == whole.len() + 1 {
                    assert(head[i] == digit_char((c % 100) / 10));
                } else if i == whole.len() + 2 {
                    assert(head[i] == digit_char(c % 10));
                } else {
                    assert(head[i] == '元');
                }
            }
        },
        None => {
            assert(suggested_name(amount) =~= name_head(amount) + INVOICE_TAIL@);
        },
    }
}

/// A name that is one component: as a path, its final component is the
/// name itself.
pub open spec fn is_own_component(name: Seq<char>) -> bool {
    final_component(name) == Some(name)
}

/// The name that the `k`-th occurrence of a suggested name gets is the
/// head of the name and the tail for `k`.
proof fn lemma_batch_name_shape(amount: Option<Amount>, k: nat)
    requires
        is_own_component(suggested_name(amount)),
    ensures
        batch_name(suggested_name(amount), k) == name_head(amount) + batch_tail(k),
{
    lemma_suggested_name_shape(amount);
    if k >= 2 {
        reveal_strlit("pdf");
        let head = name_head(amount);
        let base = suggested_name(amount);
        let stem = head + seq!['_', '发', '票'];
        assert(base =~= stem.push('.').push('p').push('d').push('f'));
        lemma_last_dot_push(stem.push('.').push('p').push('d'), 'f');
        lemma_last_dot_push(stem.push('.').push('p'), 'd');
        lemma_last_dot_push(stem.push('.'), 'p');
        lemma_last_dot_push(stem, '.');
        assert(last_dot(base) == stem.len());
        assert(is_file_name(base)) by {
            assert(seq!['.'].len() == 1);
            assert(seq!['.', '.'].len() == 2);
        }
        assert(base.take(last_dot(base)) =~= stem);
        assert(base.skip(last_dot(base) + 1) =~= seq!['p', 'd', 'f']);
        assert(stem_or_default(base) == stem);
        assert(extension_or_default(base) == seq!['p', 'd', 'f']);
        assert(numbered(stem, k, seq!['p', 'd', 'f']) =~= head + batch_tail(k));
    }
}

/// Two names of a batch are the same only if they were made from the same
/// suggested name and are the same occurrence of it.
proof fn lemma_batch_name_injective(
    first: Option<Amount>,
    j: nat,
    second: Option<Amount>,
    k: nat,
)
    requires
        j >= 1,
        k >= 1,
        is_own_component(suggested_name(first)),
        is_own_component(suggested_name(second)),
        batch_name(suggested_name(first), j) == batch_name(suggested_name(second), k),
    ensures
        suggested_name(first) == suggested_name(second),
        j == k,
{
    lemma_suggested_name_shape(first);
    lemma_suggested_name_shape(second);
    lemma_batch_name_shape(first, j);
    lemma_batch_name_shape(second, k);
    let name = batch_name(suggested_name(first), j);
    let h1 = name_head(first);
    let h2 = name_head(second);
    let t1 = batch_tail(j);
    let t2 = batch_tail(k);
    assert(t1.len() >= 7 && t1[0] == '_');
    assert(t2.len() >= 7 && t2[0] == '_');
    assert(name == h1 + t1);
    assert(name == h2 + t2);
    if h1.len() < h2.len() {
        assert((h1 + t1)[h1.len() as int] == '_');
        assert((h2 + t2)[h1.len() as int] == h2[h1.len() as int]);
    }
    if h2.len() < h1.len() {
        assert((h2 + t2)[h2.len() as int] == '_');
        assert((h1 + t1)[h2.len() as int] == h1[h2.len() as int]);
    }
    assert(h1 =~= h2) by {
        assert forall|i: int| 0 <= i < h1.len() implies h1[i] == h2[i] by {
            assert((h1 + t1)[i] == h1[i]);
            assert((h2 + t2)[i] == h2[i]);
        }
    }
    assert(t1 =~= t2) by {
        assert(name.len() == h1.len() + t1.len());
        assert(name.len() == h2.len() + t2.len());
        assert forall|i: int| 0 <= i < t1.len() implies t1[i] == t2[i] by {
            assert((h1 + t1)[h1.len() + i] == t1[i]);
            assert((h2 + t2)[h2.len() + i] == t2[i]);
        }
    }
    if j >= 2 && k >= 2 {
        let d1 = decimal(j);
        let d2 = decimal(k);
        assert(t1.len() == d1.len() + 8);
        assert(t2.len() == d2.len() + 8);
        assert(d1 =~= d2) by {
            assert forall|i: int| 0 <= i < d1.len() implies d1[i] == d2[i] by {
                assert(t1[4 + i] == d1[i]);
                assert(t2[4 + i] == d2[i]);
            }
        }
        lemma_decimal_injective(j, k);
    } else if j >= 2 {
        assert(t1[3] == '_');
        assert(t2[3] == '.');
    } else if k >= 2 {
        assert(t2[3] == '_');
        assert(t1[3] == '.');
    }
}

/// A name is counted no less often in a longer part of a batch.
proof fn lemma_count_of_grows(names: Seq<Seq<char>>, name: Seq<char>, i: int, j: int)
    requires
        0 <= i <= j <= names.len(),
    ensures
        count_of(names.take(i), name) <= count_of(names.take(j), name),
    decreases j - i,
{
    if i < j {
        lemma_count_of_grows(names, name, i, j - 1);
        assert(names.take(j).drop_last() =~= names.take(j - 1));
    }
}

/// Of two equal names in a batch, the later is a later occurrence.
pub proof fn lemma_later_occurrence_is_larger(names: Seq<Seq<char>>, i: int, j: int)
    requires
        0 <= i < j < names.len(),
        names[i] == names[j],
    ensures
        occurrence(names, i) < occurrence(names, j),
{
    lemma_count_of_grows(names, names[i], i + 1, j);
    assert(names.take(j + 1).drop_last() =~= names.take(j));
    assert(names.take(j + 1).last() == names[j]);
}

/// The names that the batch pass gives the documents of one batch are
/// pairwise different, where each suggested name is one component.
pub proof fn lemma_batch_names_distinct(files: Seq<PdfFile>, i: int, j: int)
    requires
        0 <= i < j < files.len(),
        is_own_component(suggested_names(files)[i]),
        is_own_component(suggested_names(files)[j]),
    ensures
        resolved_batch(suggested_names(files))[i] != resolved_batch(suggested_names(files))[j],
{
    let names = suggested_names(files);
    lemma_occurrence_positive(names, i);
    lemma_occurrence_positive(names, j);
    if resolved_batch(names)[i] == resolved_batch(names)[j] {
        lemma_batch_name_injective(
            files[i].amount,
            occurrence(names, i),
            files[j].amount,
            occurrence(names, j),
        );
        lemma_later_occurrence_is_larger(names, i, j);
    }
}

/// Counts which occurrence of its name the `i`-th name is.
pub fn occurrence_number(names: &Vec<Vec<char>>, i: usize) -> (k: usize)
    requires
        i < names.len(),
    ensures
        k == occurrence(vec_views(names@), i as int),
        1 <= k <= i + 1,
{
    let ghost views = vec_views(names@);
    let ghost upto = views.take(i + 1);
    let mut k: usize = 0;
    let mut j: usize = 0;
    while j <= i
        invariant
            j <= i + 1,
            i < names.len(),
            k <= j,
            views == vec_views(names@),
            upto == views.take(i + 1),
            k == count_of(upto.take(j as int), views[i as int]),
        decreases i + 1 - j,
    {
        proof {
            assert(upto.take(j + 1).drop_last() =~= upto.take(j as int));
            assert(upto.take(j + 1).last() == views[j as int]);
            assert(views[j as int] == names@[j as int]@);
            assert(views[i as int] == names@[i as int]@);
        }
        if same_text(&names[j], &names[i]) {
            k += 1;
        }
        j += 1;
    }
    proof {
        assert(upto.take(i + 1) =~= upto);
        lemma_occurrence_positive(views, i as int);
    }
    k
}

/// The pass that keeps the names of one batch apart, on the names
/// themselves.
pub fn resolve_batch(names: &Vec<Vec<char>>) -> (out: Vec<String>)
    ensures
        string_views(out@) == resolved_batch(vec_views(names@)),
{
    let ghost views = vec_views(names@);
    let default_stem = chars_of(DEFAULT_STEM);
    let default_extension = chars_of(DEFAULT_EXTENSION);
    let mut out: Vec<String> = Vec::new();
    let mut i: usize = 0;
    while i < names.len()
        invariant
            i <= names.len(),
            views == vec_views(names@),
            default_stem@ == DEFAULT_STEM@,
            default_extension@ == DEFAULT_EXTENSION@,
            out.len() == i,
            forall|j: int| 0 <= j < i ==> (#[trigger] out@[j])@ == resolved_batch(views)[j],
        decreases names.len() - i,
    {
        assert(views[i as int] == names@[i as int]@);
        let k = occurrence_number(names, i);
        let base = string_of(&names[i]);
        let resolved = if k == 1 {
            base
        } else {
            let stem = match stem_of_path(base.as_str()) {
                Some(s) => s,
                None => chars_of(DEFAULT_STEM),
            };
            let extension = match extension_of_path(base.as_str()) {
                Some(e) => e,
                None => chars_of(DEFAULT_EXTENSION),
            };
            string_of(&numbered_name(&stem, k as u128, &extension))
        };
        out.push(resolved);
        i += 1;
    }
    assert(string_views(out@) =~= resolved_batch(views));
    out
}

/// Counts of a batch: how many documents, how many with an amount, and
/// the sum of the amounts in hundredths.
#[derive(Debug)]
pub struct RenameStats {
    pub total_files: usize,
    pub files_with_amount: usize,
    pub files_without_amount: usize,
    pub total_amount: u128,
}

/// How many of the documents have an amount.
pub open spec fn count_with_amount(files: Seq<PdfFile>) -> nat
    decreases files.len(),
{
    if files.len() == 0 {
        0
    } else {
        count_with_amount(files.drop_last()) + if files.last().amount is Some {
            1nat
        } else {
            0nat
        }
    }
}

/// The sum of the amounts of the documents, in hundredths.
pub open spec fn sum_of_amounts(files: Seq<PdfFile>) -> nat
    decreases files.len(),
{
    if files.len() == 0 {
        0
    } else {
        sum_of_amounts(files.drop_last()) + match files.last().amount {
            Some(a) => a.cents as nat,
            None => 0nat,
        }
    }
}

impl RenameStats {
    /// The average amount of the documents that have one, in hundredths
    /// and rounded down; zero where none has one.
    pub fn average_amount(&self) -> (average: u128)
        ensures
            average == if self.files_with_amount > 0 {
                self.total_amount / (self.files_with_amount as u128)
            } else {
                0
            },
    {
        if self.files_with_amount > 0 {
            self.total_amount / (self.files_with_amount as u128)
        } else {
            0
        }
    }
}

/// The naming engine.
pub struct NamingEngine {
    file_service: FileService,
}

impl NamingEngine {
    pub fn new() -> NamingEngine {
        NamingEngine { file_service: FileService::new() }
    }

    /// The name for an invoice of this amount.
    pub fn generate_filename(&self, amount: Amount) -> (name: String)
        ensures
            name@ == generated_name(amount.cents as nat),
    {
        let mut name = amount.format_chars();
        push_all(&mut name, &chars_of(INVOICE_SUFFIX));
        string_of(&name)
    }

    /// The amount with exactly two decimal places.
    pub fn format_amount(&self, amount: Amount) -> (text: String)
        ensures
            text@ == amount_text(amount.cents as nat),
    {
        amount.format()
    }

    /// The name suggested for a document: by its amount where it has one,
    /// else the name for an unknown amount.
    pub fn generate_suggested_name(&self, pdf_file: &PdfFile) -> (name: String)
        ensures
            name@ == suggested_name(pdf_file.amount),
    {
        self.suggest(pdf_file.amount)
    }

    /// The name suggested for an amount, or for none.
    pub fn suggest(&self, amount: Option<Amount>) -> (name: String)
        ensures
            name@ == suggested_name(amount),
    {
        match amount {
            Some(a) => self.generate_filename(a),
            None => string_of(&chars_of(UNKNOWN_AMOUNT_NAME)),
        }
    }

    /// A preview for each document of a batch, in order.
    pub fn generate_rename_previews(&self, files: &[PdfFile]) -> (previews: Vec<RenamePreview>)
        ensures
            previews.len() == files.len(),
            forall|i: int|
                0 <= i < files.len() ==> {
                    &&& (#[trigger] previews@[i]).original_name@ == files@[i].name@
                    &&& previews@[i].suggested_name@ == suggested_name(files@[i].amount)
                    &&& previews@[i].amount == files@[i].amount
                },
    {
        let mut previews: Vec<RenamePreview> = Vec::new();
        let mut i: usize = 0;
        while i < files.len()
            invariant
                i <= files.len(),
                previews.len() == i,
                forall|j: int|
                    0 <= j < i ==> {
                        &&& (#[trigger] previews@[j]).original_name@ == files@[j].name@
                        &&& previews@[j].suggested_name@ == suggested_name(files@[j].amount)
                        &&& previews@[j].amount == files@[j].amount
                    },
            decreases files.len() - i,
        {
            let file = &files[i];
            previews.push(
                RenamePreview {
                    original_name: file.name.clone(),
                    suggested_name: self.generate_suggested_name(file),
                    amount: file.amount,
                },
            );
            i += 1;
        }
        previews
    }

    /// The batch pass: the suggested name of each document, numbered by
    /// its occurrence among the documents up to it. The first document
    /// with a name keeps it; the `k`-th gets `_<k>` before the extension.
    /// No two of the names that come out are the same, as far as each
    /// suggested name is one component of a path.
    pub fn resolve_naming_conflicts(&self, files: &[PdfFile]) -> (names: Vec<String>)
        ensures
            string_views(names@) == resolved_batch(suggested_names(files@)),
            forall|i: int, j: int|
                0 <= i < j < names.len() && is_own_component(suggested_names(files@)[i])
                    && is_own_component(suggested_names(files@)[j]) ==> (#[trigger] names@[i])@
                    != (#[trigger] names@[j])@,
    {
        let mut bases: Vec<Vec<char>> = Vec::new();
        let mut i: usize = 0;
        while i < files.len()
            invariant
                i <= files.len(),
                bases.len() == i,
                forall|j: int|
                    0 <= j < i ==> (#[trigger] bases@[j])@ == suggested_name(files@[j].amount),
            decreases files.len() - i,
        {
            let base = self.generate_suggested_name(&files[i]);
            bases.push(chars_of(base.as_str()));
            i += 1;
        }
        assert(vec_views(bases@) =~= suggested_names(files@));
        let names = resolve_batch(&bases);
        proof {
            let resolved = resolved_batch(suggested_names(files@));
            assert(names.len() == files.len()) by {
                assert(string_views(names@).len() == resolved.len());
            }
            assert forall|i: int, j: int|
                0 <= i < j < names.len() && is_own_component(suggested_names(files@)[i])
                    && is_own_component(suggested_names(files@)[j]) implies (
            #[trigger] names@[i])@ != (#[trigger] names@[j])@ by {
                lemma_batch_names_distinct(files@, i, j);
                assert(string_views(names@)[i] == names@[i]@);
                assert(string_views(names@)[j] == names@[j]@);
            }
        }
        names
    }

    /// The stem and the extension of the final component of a name, with
    /// `file` and `pdf` for a part that is missing.
    pub fn split_filename(&self, filename: &str) -> (parts: (String, String))
        ensures
            parts.0@ == stem_or_default(filename@),
            parts.1@ == extension_or_default(filename@),
    {
        let stem = match stem_of_path(filename) {
            Some(s) => s,
            None => chars_of(DEFAULT_STEM),
        };
        let extension = match extension_of_path(filename) {
            Some(e) => e,
            None => chars_of(DEFAULT_EXTENSION),
        };
        (string_of(&stem), string_of(&extension))
    }

    /// The safe form of a name.
    pub fn sanitize_filename(&self, filename: &str) -> (safe: String)
        ensures
            safe@ == sanitized(filename@),
    {
        self.file_service.sanitize_filename(filename)
    }

    /// The path of `new_filename` in the directory of `original_path`;
    /// `None` where that path has no directory.
    pub fn generate_full_rename_path(
        &self,
        original_path: &str,
        new_filename: &str,
    ) -> (path: Option<String>)
        ensures
            optional_view(path) == match parent_of(original_path@) {
                Some(directory) => Some(joined(directory, new_filename@)),
                None => None,
            },
    {
        match parent_directory(original_path) {
            Some(directory) => Some(join_path(directory.as_str(), new_filename)),
            None => None,
        }
    }

    /// Whether a name is one that the generator could have made, and is
    /// acceptable as a file name.
    pub fn validate_generated_name(&self, filename: &str) -> (valid: bool)
        ensures
            valid == is_valid_generated_name(filename@),
    {
        let name = chars_of(filename);
        let tail = chars_of(INVOICE_TAIL);
        if !has_suffix(&name, &tail) {
            let unknown = chars_of(UNKNOWN_AMOUNT_NAME);
            proof {
                if filename@ == UNKNOWN_AMOUNT_NAME@ {
                    reveal_strlit("未知金额_发票.pdf");
                    reveal_strlit("_发票.pdf");
                    assert(UNKNOWN_AMOUNT_NAME@.subrange(4, 11) =~= INVOICE_TAIL@);
                    assert(false);
                }
            }
            return false;
        }
        let amount_part = prefix_of(&name, name.len() - tail.len());
        let unit = chars_of(CURRENCY_UNIT);
        if has_suffix(&amount_part, &unit) {
            let number = prefix_of(&amount_part, amount_part.len() - unit.len());
            if is_float_literal(&number) {
                return self.file_service.validate_filename(filename);
            }
        }
        if same_text(&name, &chars_of(UNKNOWN_AMOUNT_NAME)) {
            return self.file_service.validate_filename(filename);
        }
        false
    }

    /// Whether each of the names is a valid generated name.
    pub fn validate_batch_names(&self, filenames: &[String]) -> (valid: Vec<bool>)
        ensures
            valid.len() == filenames.len(),
            forall|i: int|
                0 <= i < filenames.len() ==> valid@[i] == is_valid_generated_name(
                    (#[trigger] filenames@[i])@,
                ),
    {
        let mut valid: Vec<bool> = Vec::new();
        let mut i: usize = 0;
        while i < filenames.len()
            invariant
                i <= filenames.len(),
                valid.len() == i,
                forall|j: int|
                    0 <= j < i ==> valid@[j] == is_valid_generated_name(
                        (#[trigger] filenames@[j])@,
                    ),
            decreases filenames.len() - i,
        {
            valid.push(self.validate_generated_name(filenames[i].as_str()));
            i += 1;
        }
        valid
    }

    /// For each new name, whether the directory already holds it.
    /// `existing` lists the names that the directory holds.
    pub fn check_naming_conflicts_in_directory(
        &self,
        existing: &Vec<String>,
        new_filenames: &[String],
    ) -> (conflicts: Vec<bool>)
        ensures
            conflicts.len() == new_filenames.len(),
            forall|i: int|
                0 <= i < new_filenames.len() ==> conflicts@[i] == string_views(existing@).contains(
                    (#[trigger] new_filenames@[i])@,
                ),
    {
        let mut conflicts: Vec<bool> = Vec::new();
        let mut i: usize = 0;
        while i < new_filenames.len()
            invariant
                i <= new_filenames.len(),
                conflicts.len() == i,
                forall|j: int|
                    0 <= j < i ==> conflicts@[j] == string_views(existing@).contains(
                        (#[trigger] new_filenames@[j])@,
                    ),
            decreases new_filenames.len() - i,
        {
            conflicts.push(is_taken(existing, &new_filenames[i]));
            i += 1;
        }
        conflicts
    }

    /// The directory pass: for each name, by itself, a name that the
    /// directory does not hold. `existing` lists the names that the
    /// directory holds. A name found for one entry is not kept from the
    /// next: two entries may get the same free name.
    pub fn resolve_directory_conflicts(
        &self,
        existing: &Vec<String>,
        filenames: &[String],
    ) -> (free: Vec<String>)
        ensures
            free.len() == filenames.len(),
            forall|i: int|
                0 <= i < filenames.len() ==> {
                    &&& !string_views(existing@).contains((#[trigger] free@[i])@)
                    &&& resolves_to(string_views(existing@), filenames@[i]@, free@[i]@)
                },
    {
        let mut free: Vec<String> = Vec::new();
        let mut i: usize = 0;
        while i < filenames.len()
            invariant
                i <= filenames.len(),
                free.len() == i,
                forall|j: int|
                    0 <= j < i ==> {
                        &&& !string_views(existing@).contains((#[trigger] free@[j])@)
                        &&& resolves_to(string_views(existing@), filenames@[j]@, free@[j]@)
                    },
            decreases filenames.len() - i,
        {
            free.push(self.file_service.resolve_filename_conflict(existing, filenames[i].as_str()));
            i += 1;
        }
        free
    }

    /// The counts of a batch.
    pub fn generate_rename_stats(&self, files: &[PdfFile]) -> (stats: RenameStats)
        ensures
            stats.total_files == files.len(),
            stats.files_with_amount == count_with_amount(files@),
            stats.files_without_amount == files.len() - count_with_amount(files@),
            stats.total_amount == sum_of_amounts(files@),
    {
        let mut with_amount: usize = 0;
        let mut total: u128 = 0;
        let mut i: usize = 0;
        while i < files.len()
            invariant
                i <= files.len(),
                with_amount == count_with_amount(files@.take(i as int)),
                with_amount <= i,
                total == sum_of_amounts(files@.take(i as int)),
                total <= i * u64::MAX,
            decreases files.len() - i,
        {
            proof {
                assert(files@.take(i + 1).drop_last() =~= files@.take(i as int));
                assert(files@.take(i + 1).last() == files@[i as int]);
                assert((i + 1) * u64::MAX == i * u64::MAX + u64::MAX) by (nonlinear_arith);
                assert(i * u64::MAX <= usize::MAX * u64::MAX) by (nonlinear_arith)
                    requires
                        i <= usize::MAX,
                ;
            }
            match files[i].amount {
                Some(a) => {
                    with_amount += 1;
                    total += a.cents as u128;
                },
                None => {},
            }
            i += 1;
        }
        assert(files@.take(files.len() as int) =~= files@);
        RenameStats {
            total_files: files.len(),
            files_with_amount: with_amount,
            files_without_amount: files.len() - with_amount,
            total_amount: total,
        }
    }
}

} // verus!
