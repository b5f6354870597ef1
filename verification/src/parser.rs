use vstd::prelude::*;
use crate::text::chars_of;
use crate::text::chars_equal;
use crate::text::collapse_whitespace;
use crate::text::collapsed;
use crate::text::lemma_collapsed_idempotent;
use crate::text::lemma_collapsed_no_upper;
use crate::text::lemma_replaced_no_upper;
use crate::text::no_ascii_upper;
use crate::text::lowercase_of;
use crate::text::replace_all;
use crate::text::replaced;
use crate::text::string_of;
use crate::text::str_equal;
use crate::text::to_lowercase;

verus! {

broadcast use vstd::string::group_string_axioms;

// ---------------------------------------------------------------------------
// The regular expression engine (the `regex` crate)
// ---------------------------------------------------------------------------

#[verifier::external_type_specification]
#[verifier::external_body]
pub struct ExRegex(regex::Regex);

#[verifier::external_type_specification]
#[verifier::external_body]
pub struct ExRegexError(regex::Error);

/// A compiled regular expression together with the pattern it was compiled from.
pub struct CompiledRegex {
    regex: regex::Regex,
    pattern: Ghost<Seq<char>>,
}

impl CompiledRegex {
    /// The pattern this regular expression was compiled from.
    pub closed spec fn pattern(&self) -> Seq<char> {
        self.pattern@
    }
}

/// Whether `regex::Regex::new` accepts a pattern (it is valid and within the default size
/// limit).
pub uninterp spec fn regex_compiles(pattern: Seq<char>) -> bool;

/// What `regex::Regex::captures` finds for a pattern in a haystack: `None` where nothing
/// matches, otherwise the text of every capture group of the leftmost-first match, group 0
/// being the whole match and a group that did not take part being `None`.
pub uninterp spec fn regex_first_captures(pattern: Seq<char>, haystack: Seq<char>) -> Option<
    Seq<Option<Seq<char>>>,
>;

/// Calls `regex::Regex::new`. It succeeds exactly when the pattern compiles (named by
/// `regex_compiles`); the result remembers the pattern.
#[verifier::external_body]
pub(crate) fn compile_regex(pattern: &str) -> (res: Result<CompiledRegex, regex::Error>)
    ensures
        res is Ok == regex_compiles(pattern@),
        res matches Ok(r) ==> r.pattern() == pattern@,
{
    match regex::Regex::new(pattern) {
        Ok(regex) => Ok(CompiledRegex { regex, pattern: Ghost(pattern@) }),
        Err(e) => Err(e),
    }
}

/// Calls `regex::Regex::captures` and copies out the text of every capture group. Its result
/// is named by `regex_first_captures`; the documentation promises that group 0 (the whole
/// match) is always present in a match.
#[verifier::external_body]
pub(crate) fn first_captures(re: &CompiledRegex, haystack: &str) -> (res: Option<Vec<Option<String>>>)
    ensures
        res.deep_view() == regex_first_captures(re.pattern(), haystack@),
        res matches Some(groups) ==> groups@.len() > 0 && groups@[0] is Some,
{
    re.regex.captures(haystack).map(
        |caps| caps.iter().map(|m| m.map(|m| m.as_str().to_string())).collect(),
    )
}


// ---------------------------------------------------------------------------
// What the language model decided
// ---------------------------------------------------------------------------

/// The classes that the language model picked for a message: the index of the highest score
/// in each of its three outputs (intent, language, category).
pub struct ModelPrediction {
    pub intent_index: usize,
    pub language_index: usize,
    pub category_index: usize,
}

/// The intent named by a class index of the model.
pub open spec fn intent_label(i: int) -> Seq<char> {
    if i == 0 {
        "add_expense"@
    } else if i == 1 {
        "query"@
    } else if i == 2 {
        "greeting"@
    } else {
        "non_expense"@
    }
}

/// The language named by a class index of the model.
pub open spec fn language_label(i: int) -> Seq<char> {
    if i == 0 {
        "en"@
    } else {
        "id"@
    }
}

/// The category group named by a class index of the model.
pub open spec fn category_label(i: int) -> Seq<char> {
    if i == 0 {
        "entertainment"@
    } else if i == 1 {
        "food"@
    } else if i == 2 {
        "transport"@
    } else if i == 3 {
        "other"@
    } else if i == 4 {
        "bills"@
    } else if i == 5 {
        "shopping"@
    } else if i == 6 {
        "health"@
    } else {
        "unknown"@
    }
}

/// The intent of a class index: add_expense, query, greeting, and non_expense for any other.
pub fn intent_name(i: usize) -> (res: String)
    ensures
        res@ == intent_label(i as int),
{
    if i == 0 {
        String::from_str("add_expense")
    } else if i == 1 {
        String::from_str("query")
    } else if i == 2 {
        String::from_str("greeting")
    } else {
        String::from_str("non_expense")
    }
}

/// The language of a class index: "en" for the first class, "id" for any other.
pub fn language_name(i: usize) -> (res: String)
    ensures
        res@ == language_label(i as int),
{
    if i == 0 {
        String::from_str("en")
    } else {
        String::from_str("id")
    }
}

/// The category group of a class index; "unknown" past the seven known groups.
pub fn category_name(i: usize) -> (res: String)
    ensures
        res@ == category_label(i as int),
{
    if i == 0 {
        String::from_str("entertainment")
    } else if i == 1 {
        String::from_str("food")
    } else if i == 2 {
        String::from_str("transport")
    } else if i == 3 {
        String::from_str("other")
    } else if i == 4 {
        String::from_str("bills")
    } else if i == 5 {
        String::from_str("shopping")
    } else if i == 6 {
        String::from_str("health")
    } else {
        String::from_str("unknown")
    }
}

// ---------------------------------------------------------------------------
// Slang
// ---------------------------------------------------------------------------

/// The text with slang amounts spelled as numbers, in this order: gocap, ceban, goceng,
/// seceng, gopek, cepek (Indonesian), then "a fiver" and "a tenner" (English).
pub open spec fn slang_expanded(s: Seq<char>) -> Seq<char> {
    let s1 = replaced(s, "gocap"@, "50000"@);
    let s2 = replaced(s1, "ceban"@, "10000"@);
    let s3 = replaced(s2, "goceng"@, "5000"@);
    let s4 = replaced(s3, "seceng"@, "1000"@);
    let s5 = replaced(s4, "gopek"@, "500"@);
    let s6 = replaced(s5, "cepek"@, "100"@);
    let s7 = replaced(s6, "a fiver"@, "5"@);
    replaced(s7, "a tenner"@, "10"@)
}

/// Spelling out slang amounts brings in no ASCII capital: every replacement is digits.
proof fn lemma_slang_expanded_no_upper(s: Seq<char>)
    requires
        no_ascii_upper(s),
    ensures
        no_ascii_upper(slang_expanded(s)),
{
    reveal_strlit("50000");
    reveal_strlit("10000");
    reveal_strlit("5000");
    reveal_strlit("1000");
    reveal_strlit("500");
    reveal_strlit("100");
    reveal_strlit("5");
    reveal_strlit("10");
    let s1 = replaced(s, "gocap"@, "50000"@);
    lemma_replaced_no_upper(s, "gocap"@, "50000"@);
    let s2 = replaced(s1, "ceban"@, "10000"@);
    lemma_replaced_no_upper(s1, "ceban"@, "10000"@);
    let s3 = replaced(s2, "goceng"@, "5000"@);
    lemma_replaced_no_upper(s2, "goceng"@, "5000"@);
    let s4 = replaced(s3, "seceng"@, "1000"@);
    lemma_replaced_no_upper(s3, "seceng"@, "1000"@);
    let s5 = replaced(s4, "gopek"@, "500"@);
    lemma_replaced_no_upper(s4, "gopek"@, "500"@);
    let s6 = replaced(s5, "cepek"@, "100"@);
    lemma_replaced_no_upper(s5, "cepek"@, "100"@);
    let s7 = replaced(s6, "a fiver"@, "5"@);
    lemma_replaced_no_upper(s6, "a fiver"@, "5"@);
    lemma_replaced_no_upper(s7, "a tenner"@, "10"@);
}

/// The message as the amount search sees it: lower-cased, slang spelled out.
pub open spec fn preprocessed(text: Seq<char>) -> Seq<char> {
    slang_expanded(lowercase_of(text))
}

fn replace_literal(s: &Vec<char>, from: &str, to: &str) -> (res: Vec<char>)
    requires
        from@.len() > 0,
    ensures
        res@ == replaced(s@, from@, to@),
{
    let f = chars_of(from);
    let t = chars_of(to);
    replace_all(s, &f, &t)
}

/// Lower-cases the message and spells out slang amounts.
pub fn preprocess(text: &str) -> (res: Vec<char>)
    ensures
        res@ == preprocessed(text@),
        no_ascii_upper(res@),
{
    let lower = to_lowercase(text);
    let s0 = chars_of(lower.as_str());
    proof {
        lemma_slang_expanded_no_upper(s0@);
        reveal_strlit("gocap");
        reveal_strlit("ceban");
        reveal_strlit("goceng");
        reveal_strlit("seceng");
        reveal_strlit("gopek");
        reveal_strlit("cepek");
        reveal_strlit("a fiver");
        reveal_strlit("a tenner");
    }
    let s1 = replace_literal(&s0, "gocap", "50000");
    let s2 = replace_literal(&s1, "ceban", "10000");
    let s3 = replace_literal(&s2, "goceng", "5000");
    let s4 = replace_literal(&s3, "seceng", "1000");
    let s5 = replace_literal(&s4, "gopek", "500");
    let s6 = replace_literal(&s5, "cepek", "100");
    let s7 = replace_literal(&s6, "a fiver", "5");
    replace_literal(&s7, "a tenner", "10")
}


// ---------------------------------------------------------------------------
// Amounts
// ---------------------------------------------------------------------------

/// The pattern that finds an amount: an optional "rp" or "$", a number with an optional
/// decimal part (written with "." or ","), then an optional multiplier word; letters in any
/// case.
pub open spec fn amount_pattern() -> Seq<char> {
    "(?i)(?:rp|\\$)?\\s*(\\d+(?:[.,]\\d+)?)\\s*(rb|ribu|rebu|k|jt|juta|jeti|grand|bucks|mil|m)?"@
}

/// The factor that a multiplier word stands for: a thousand for rb, ribu, rebu, k and grand;
/// a million for jt, juta, jeti, mil and m; one for bucks, for any other word and where
/// there is none.
pub open spec fn suffix_multiplier(suffix: Option<Seq<char>>) -> u32 {
    match suffix {
        None => 1,
        Some(m) => if m == "rb"@ || m == "ribu"@ || m == "rebu"@ || m == "k"@ || m == "grand"@ {
            1000
        } else if m == "jt"@ || m == "juta"@ || m == "jeti"@ || m == "mil"@ || m == "m"@ {
            1_000_000
        } else {
            1
        },
    }
}

/// Whether `word` is one of the alternatives of the last group of a pattern: it stands
/// between "(" or "|" and "|" or ")", no group opens after it, and the pattern ends with that
/// group, made optional.
pub open spec fn lists_in_last_group(pattern: Seq<char>, word: Seq<char>) -> bool {
    &&& pattern.len() >= 2
    &&& pattern[pattern.len() - 2] == ')' && pattern[pattern.len() - 1] == '?'
    &&& exists|i: int|
        1 <= i && i + word.len() < pattern.len() && (pattern[i - 1] == '(' || pattern[i - 1] == '|')
            && #[trigger] pattern.subrange(i, i + word.len()) == word && (pattern[i + word.len()]
            == '|' || pattern[i + word.len()] == ')') && forall|j: int|
            i <= j < pattern.len() ==> pattern[j] != '('
}

/// The amount pattern reads letters in any case, and its multiplier group knows every word
/// that stands for a factor: rb, ribu, rebu, k, grand, jt, juta, jeti, mil and m.
pub proof fn lemma_pattern_knows_every_multiplier_word(word: Seq<char>)
    requires
        suffix_multiplier(Some(word)) != 1,
    ensures
        amount_pattern().take(4) == "(?i)"@,
        lists_in_last_group(amount_pattern(), word),
{
    let p = amount_pattern();
    reveal_strlit("(?i)(?:rp|\\$)?\\s*(\\d+(?:[.,]\\d+)?)\\s*(rb|ribu|rebu|k|jt|juta|jeti|grand|bucks|mil|m)?");
    reveal_strlit("(?i)");
    reveal_strlit("rb");
    reveal_strlit("ribu");
    reveal_strlit("rebu");
    reveal_strlit("k");
    reveal_strlit("grand");
    reveal_strlit("jt");
    reveal_strlit("juta");
    reveal_strlit("jeti");
    reveal_strlit("mil");
    reveal_strlit("m");
    assert(p.len() == 85);
    assert(p.take(4) =~= "(?i)"@);
    let i: int = if word == "rb"@ {
        38
    } else if word == "ribu"@ {
        41
    } else if word == "rebu"@ {
        46
    } else if word == "k"@ {
        51
    } else if word == "jt"@ {
        53
    } else if word == "juta"@ {
        56
    } else if word == "jeti"@ {
        61
    } else if word == "grand"@ {
        66
    } else if word == "mil"@ {
        78
    } else {
        82
    };
    assert(p.subrange(i, i + word.len()) =~= word);
    assert forall|j: int| i <= j < p.len() implies p[j] != '(' by {}
}

/// The factor that a multiplier word stands for.
pub fn multiplier_of(suffix: &str) -> (res: u32)
    ensures
        res == suffix_multiplier(Some(suffix@)),
{
    if str_equal(suffix, "rb") || str_equal(suffix, "ribu") || str_equal(suffix, "rebu")
        || str_equal(suffix, "k") || str_equal(suffix, "grand") {
        1000
    } else if str_equal(suffix, "jt") || str_equal(suffix, "juta") || str_equal(suffix, "jeti")
        || str_equal(suffix, "mil") || str_equal(suffix, "m") {
        1_000_000
    } else {
        1
    }
}

/// An amount as found in a message: the number as written, with "," turned into ".", and the
/// factor of the multiplier word that followed it. Its value is the number times the factor.
#[derive(Debug)]
pub struct AmountFigure {
    pub number: String,
    pub multiplier: u32,
}

/// The number text and factor of an optional amount.
pub open spec fn amount_view(a: Option<AmountFigure>) -> Option<(Seq<char>, u32)> {
    match a {
        None => None,
        Some(f) => Some((f.number@, f.multiplier)),
    }
}

/// Whether a search result can be read the way the parser reads it: where something
/// matched, it has a whole match and a number group.
pub open spec fn captures_usable(caps: Option<Seq<Option<Seq<char>>>>) -> bool {
    match caps {
        None => true,
        Some(g) => g.len() > 1 && g[0] is Some && g[1] is Some,
    }
}

/// Capture group `i`, or `None` where the pattern has no such group.
pub open spec fn group_text(g: Seq<Option<Seq<char>>>, i: int) -> Option<Seq<char>> {
    if 0 <= i < g.len() {
        g[i]
    } else {
        None
    }
}

/// The amount of a message: none unless the intent is to add an expense and a number was
/// found; otherwise the number (with "," read as ".") and its multiplier.
pub open spec fn amount_of(intent_index: int, caps: Option<Seq<Option<Seq<char>>>>) -> Option<
    (Seq<char>, u32),
> {
    if intent_index != 0 {
        None
    } else {
        match caps {
            None => None,
            Some(g) => Some(
                (replaced(g[1]->0, ","@, "."@), suffix_multiplier(group_text(g, 2))),
            ),
        }
    }
}

/// The description of a message: the preprocessed text with every copy of the matched
/// amount removed, white space collapsed.
pub open spec fn description_of(pre: Seq<char>, caps: Option<Seq<Option<Seq<char>>>>) -> Seq<
    char,
> {
    match caps {
        None => collapsed(pre),
        Some(g) => collapsed(replaced(pre, g[0]->0, Seq::<char>::empty())),
    }
}

/// What the parser makes of a message.
#[derive(Debug)]
pub struct ParsedExpense {
    pub intent: String,
    pub language: String,
    /// `None` stands for an amount of zero.
    pub amount: Option<AmountFigure>,
    pub description: String,
    pub item_name: String,
    pub category_group: String,
}

/// Whether `p` is what the parser makes of a preprocessed message `pre`, given the model's
/// prediction and the amount search result `caps`.
pub open spec fn interprets(
    p: ParsedExpense,
    prediction: ModelPrediction,
    pre: Seq<char>,
    caps: Option<Seq<Option<Seq<char>>>>,
) -> bool {
    &&& p.intent@ == intent_label(prediction.intent_index as int)
    &&& p.language@ == language_label(prediction.language_index as int)
    &&& p.category_group@ == category_label(prediction.category_index as int)
    &&& amount_view(p.amount) == amount_of(prediction.intent_index as int, caps)
    &&& p.description@ == description_of(pre, caps)
    &&& p.item_name@ == p.description@
}

/// Builds the parse result from the model's prediction, the preprocessed message and the
/// result of the amount search.
pub fn interpret(
    prediction: &ModelPrediction,
    pre: &Vec<char>,
    caps: &Option<Vec<Option<String>>>,
) -> (res: ParsedExpense)
    requires
        captures_usable(caps.deep_view()),
    ensures
        interprets(res, *prediction, pre@, caps.deep_view()),
{
    let intent = intent_name(prediction.intent_index);
    let language = language_name(prediction.language_index);
    let category_group = category_name(prediction.category_index);
    let (amount, description) = match caps {
        None => (None, collapse_whitespace(pre)),
        Some(g) => {
            let ghost gv = g.deep_view();
            assert(gv[0] == g@[0].deep_view());
            assert(gv[1] == g@[1].deep_view());
            let whole = match &g[0] {
                Some(t) => chars_of(t.as_str()),
                None => Vec::new(),
            };
            let rest = if whole.len() == 0 {
                proof {
                    assert(whole@ =~= gv[0]->0);
                }
                collapse_whitespace(pre)
            } else {
                let empty: Vec<char> = Vec::new();
                let r = replace_all(pre, &whole, &empty);
                assert(empty@ =~= Seq::<char>::empty());
                collapse_whitespace(&r)
            };
            let amount = if prediction.intent_index == 0 {
                let number_chars = match &g[1] {
                    Some(t) => chars_of(t.as_str()),
                    None => Vec::new(),
                };
                proof {
                    reveal_strlit(",");
                }
                let number = replace_literal(&number_chars, ",", ".");
                let multiplier = if g.len() > 2 {
                    assert(gv[2] == g@[2].deep_view());
                    match &g[2] {
                        Some(t) => multiplier_of(t.as_str()),
                        None => 1,
                    }
                } else {
                    1
                };
                Some(AmountFigure { number: string_of(&number), multiplier })
            } else {
                None
            };
            (amount, rest)
        },
    };
    let description_text = string_of(&description);
    let item_name = string_of(&description);
    ParsedExpense {
        intent,
        language,
        amount,
        description: description_text,
        item_name,
        category_group,
    }
}

/// Only a message that the model reads as adding an expense has an amount; for any other
/// intent the amount is zero.
pub proof fn lemma_amount_only_for_expenses(
    p: ParsedExpense,
    prediction: ModelPrediction,
    pre: Seq<char>,
    caps: Option<Seq<Option<Seq<char>>>>,
)
    requires
        interprets(p, prediction, pre, caps),
        prediction.intent_index != 0,
    ensures
        p.amount is None,
{
}

/// The description (and the item name) of a parsed message is in normal form: collapsing
/// its white space again changes nothing.
pub proof fn lemma_description_normalized(
    p: ParsedExpense,
    prediction: ModelPrediction,
    pre: Seq<char>,
    caps: Option<Seq<Option<Seq<char>>>>,
)
    requires
        interprets(p, prediction, pre, caps),
    ensures
        collapsed(p.description@) == p.description@,
        collapsed(p.item_name@) == p.item_name@,
{
    match caps {
        None => lemma_collapsed_idempotent(pre),
        Some(g) => lemma_collapsed_idempotent(replaced(pre, g[0]->0, Seq::<char>::empty())),
    }
}

/// Where the preprocessed message holds no ASCII capital, neither do the description and
/// the item name made from it.
pub proof fn lemma_description_has_no_capitals(
    p: ParsedExpense,
    prediction: ModelPrediction,
    pre: Seq<char>,
    caps: Option<Seq<Option<Seq<char>>>>,
)
    requires
        interprets(p, prediction, pre, caps),
        no_ascii_upper(pre),
    ensures
        no_ascii_upper(p.description@),
        no_ascii_upper(p.item_name@),
{
    match caps {
        None => lemma_collapsed_no_upper(pre),
        Some(g) => {
            let cut = replaced(pre, g[0]->0, Seq::<char>::empty());
            assert(no_ascii_upper(Seq::<char>::empty()));
            lemma_replaced_no_upper(pre, g[0]->0, Seq::<char>::empty());
            lemma_collapsed_no_upper(cut);
        },
    }
}

// ---------------------------------------------------------------------------
// The parser
// ---------------------------------------------------------------------------

/// Errors in setting up the parser.
#[derive(Debug)]
pub enum ParserError {
    /// The amount pattern did not compile.
    InvalidPattern,
}

/// Turns a chat message, together with the language model's prediction for it, into an
/// expense record.
pub struct ExpenseParser {
    number_regex: CompiledRegex,
}

impl ExpenseParser {
    #[verifier::type_invariant]
    spec fn uses_amount_pattern(self) -> bool {
        self.number_regex.pattern() == amount_pattern()
    }

    /// Compiles the amount pattern; fails exactly when the regex engine rejects it.
    pub fn new() -> (res: Result<ExpenseParser, ParserError>)
        ensures
            res is Ok == regex_compiles(amount_pattern()),
    {
        match compile_regex(
            "(?i)(?:rp|\\$)?\\s*(\\d+(?:[.,]\\d+)?)\\s*(rb|ribu|rebu|k|jt|juta|jeti|grand|bucks|mil|m)?",
        ) {
            Ok(number_regex) => Ok(ExpenseParser { number_regex }),
            Err(_) => Err(ParserError::InvalidPattern),
        }
    }

    /// Reads a message: the intent, language and category come from the prediction; the
    /// amount and description come from the lower-cased, slang-expanded text. Returns `None`
    /// only where the amount search gives a match without a number group, which the pattern
    /// never does.
    pub fn parse(&self, text: &str, prediction: &ModelPrediction) -> (res: Option<ParsedExpense>)
        ensures
            res is Some == captures_usable(
                regex_first_captures(amount_pattern(), preprocessed(text@)),
            ),
            res matches Some(p) ==> interprets(
                p,
                *prediction,
                preprocessed(text@),
                regex_first_captures(amount_pattern(), preprocessed(text@)),
            ),
            res matches Some(p) ==> no_ascii_upper(p.description@) && no_ascii_upper(
                p.item_name@,
            ),
    {
        proof {
            use_type_invariant(self);
        }
        let pre = preprocess(text);
        let haystack = string_of(&pre);
        let caps = first_captures(&self.number_regex, haystack.as_str());
        let usable = match &caps {
            None => true,
            Some(g) => {
                proof {
                    let gv = g.deep_view();
                    if g@.len() > 1 {
                        assert(gv[1] == g@[1].deep_view());
                    }
                }
                g.len() > 1 && g[0].is_some() && g[1].is_some()
            },
        };
        if usable {
            let p = interpret(prediction, &pre, &caps);
            proof {
                lemma_description_has_no_capitals(p, *prediction, pre@, caps.deep_view());
            }
            Some(p)
        } else {
            None
        }
    }
}

} // verus!
