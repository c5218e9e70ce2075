//! Text shown by the game-library window: shortened labels, dates, toast
//! lines, card subtitles, and the seed that picks a card's colours.
use vstd::prelude::*;

use crate::models::Rental;
use crate::program_profiles::{strs_view, LaunchStep, LaunchStepView, ProgramProfile};
use crate::session::{remaining_text, remaining_text_spec, StatusKind, RENTAL_PERMANENT};
use crate::text::{
    chars_of, find_chars, first_occurrence, push_str, slice_chars, str_equal, string_of,
    strip_trailing, strip_trailing_chars, trim, trim_chars,
};

verus! {

pub const ELLIPSIS: &'static str = "...";

/// A line break shown as a space.
pub open spec fn flat_char(c: char) -> char {
    if c == '\n' || c == '\r' {
        ' '
    } else {
        c
    }
}

/// `s` with every line break shown as a space.
pub open spec fn flatten(s: Seq<char>) -> Seq<char> {
    s.map_values(|c: char| flat_char(c))
}

/// `text` trimmed, on one line, cut to `max_chars` characters with `...`
/// after it when it was longer.
pub open spec fn compact_text_spec(text: Seq<char>, max_chars: nat) -> Seq<char> {
    let t = trim(text);
    if t.len() <= max_chars {
        flatten(t)
    } else {
        flatten(t.take(max_chars as int)) + ELLIPSIS@
    }
}

/// `text` trimmed, on one line, and cut to `max_chars` characters (with
/// `...` when it was longer).
pub fn compact_label_text(text: &str, max_chars: usize) -> (r: String)
    ensures
        r@ == compact_text_spec(text@, max_chars as nat),
{
    let v = chars_of(text);
    compact_chars(&v, max_chars)
}

/// The same shortening, for a toast.
pub fn compact_toast_text(text: &str, max_chars: usize) -> (r: String)
    ensures
        r@ == compact_text_spec(text@, max_chars as nat),
{
    let v = chars_of(text);
    compact_chars(&v, max_chars)
}

fn compact_chars(v: &[char], max_chars: usize) -> (r: String)
    ensures
        r@ == compact_text_spec(v@, max_chars as nat),
{
    let t = trim_chars(v);
    let n = if t.len() <= max_chars {
        t.len()
    } else {
        max_chars
    };
    let mut r = String::new();
    let mut i: usize = 0;
    while i < n
        invariant
            0 <= i <= n <= t.len(),
            r@ == flatten(t@.take(i as int)),
        decreases n - i,
    {
        let c = t[i];
        let shown = if c == '\n' || c == '\r' {
            ' '
        } else {
            c
        };
        r.push(shown);
        i += 1;
        assert(flatten(t@.take(i as int)) =~= flatten(t@.take(i - 1)).push(flat_char(c)));
    }
    if t.len() > max_chars {
        push_str(&mut r, ELLIPSIS);
    } else {
        assert(t@.take(n as int) =~= t@);
    }
    r
}

/// A timestamp shortened for display: `-` when blank or `-`; otherwise the
/// part before the first `.`, without trailing `Z`s, with `T` shown as a
/// space, shortened to 16 characters.
pub open spec fn short_datetime_spec(value: Seq<char>) -> Seq<char> {
    let t = trim(value);
    if t.len() == 0 || t == seq!['-'] {
        seq!['-']
    } else {
        let head = match first_occurrence(t, seq!['.']) {
            Some(i) => t.take(i),
            None => t,
        };
        let spaced = strip_trailing(head, 'Z').map_values(
            |c: char|
                if c == 'T' {
                    ' '
                } else {
                    c
                },
        );
        compact_text_spec(spaced, 16)
    }
}

/// A timestamp shortened for display.
pub fn short_datetime(value: &str) -> (r: String)
    ensures
        r@ == short_datetime_spec(value@),
{
    let v = chars_of(value);
    let t = trim_chars(&v);
    if t.len() == 0 || (t.len() == 1 && t[0] == '-') {
        proof {
            if t.len() == 1 && t[0] == '-' {
                assert(t@ =~= seq!['-']);
            }
        }
        let mut r = String::new();
        r.push('-');
        return r;
    }
    assert(t@ != seq!['-']) by {
        if t@ == seq!['-'] {
            assert(t@[0] == '-');
        }
    }
    let mut dot: Vec<char> = Vec::new();
    dot.push('.');
    assert(dot@ =~= seq!['.']);
    let n = t.len();
    let head = match find_chars(&t, &dot) {
        Some(i) => slice_chars(&t, 0, i),
        None => slice_chars(&t, 0, n),
    };
    assert(t@.subrange(0, n as int) =~= t@);
    let stripped = strip_trailing_chars(&head, 'Z');
    let mut spaced: Vec<char> = Vec::new();
    let mut i: usize = 0;
    while i < stripped.len()
        invariant
            0 <= i <= stripped.len(),
            spaced@ == stripped@.take(i as int).map_values(
                |c: char|
                    if c == 'T' {
                        ' '
                    } else {
                        c
                    },
            ),
        decreases stripped.len() - i,
    {
        let c = stripped[i];
        spaced.push(
            if c == 'T' {
                ' '
            } else {
                c
            },
        );
        i += 1;
        assert(stripped@.take(i as int).map_values(
            |c: char|
                if c == 'T' {
                    ' '
                } else {
                    c
                },
        ) =~= stripped@.take(i - 1).map_values(
            |c: char|
                if c == 'T' {
                    ' '
                } else {
                    c
                },
        ).push(
            if c == 'T' {
                ' '
            } else {
                c
            },
        ));
    }
    assert(stripped@.take(stripped.len() as int) =~= stripped@);
    compact_chars(&spaced, 16)
}

/// The lines of a toast: the shortened text, split after `first_max`
/// characters, with the rest trimmed and shortened to `second_max`
/// characters on a second line when anything is left.
pub open spec fn toast_lines_spec(text: Seq<char>, first_max: nat, second_max: nat) -> Seq<
    Seq<char>,
> {
    let compact = compact_text_spec(text, first_max + second_max + 1);
    if compact.len() <= first_max {
        seq![compact]
    } else {
        let rest = trim(compact.subrange(first_max as int, compact.len() as int));
        if rest.len() == 0 {
            seq![compact.take(first_max as int)]
        } else {
            seq![compact.take(first_max as int), compact_text_spec(rest, second_max)]
        }
    }
}

/// The lines of a toast.
pub fn toast_lines(text: &str, first_max: usize, second_max: usize) -> (r: Vec<String>)
    requires
        first_max + second_max + 1 <= usize::MAX,
    ensures
        r@.map_values(|s: String| s@) == toast_lines_spec(text@, first_max as nat, second_max as nat),
{
    let compact = compact_toast_text(text, first_max + second_max + 1);
    let c = chars_of(compact.as_str());
    let mut r: Vec<String> = Vec::new();
    if c.len() <= first_max {
        r.push(compact);
        assert(r@.map_values(|s: String| s@) =~= seq![c@]);
        return r;
    }
    let first = slice_chars(&c, 0, first_max);
    let n = c.len();
    let tail = slice_chars(&c, first_max, n);
    let rest = trim_chars(&tail);
    let first_string = string_of(&first);
    assert(c@.take(first_max as int) =~= c@.subrange(0, first_max as int));
    if rest.len() == 0 {
        r.push(first_string);
        assert(r@.map_values(|s: String| s@) =~= seq![first@]);
    } else {
        let second = compact_chars(&rest, second_max);
        r.push(first_string);
        r.push(second);
        assert(r@.map_values(|s: String| s@) =~= seq![
            first@,
            compact_text_spec(rest@, second_max as nat),
        ]);
    }
    r
}

pub const PERMANENT_ACCESS: &'static str = "Permanent access";

pub const PROGRAM_ACCESS: &'static str = "Program access";

/// The subtitle of a game card: the profile's subtitle when it has one,
/// else "Permanent access" for a permanent rental, else the time left, else
/// the product status label, else "Program access".
pub open spec fn rental_subtitle_spec(rental: Rental, profile_subtitle: Seq<char>) -> Seq<char> {
    if profile_subtitle.len() > 0 {
        profile_subtitle
    } else if rental.is_permanent || rental.rental_status@ == RENTAL_PERMANENT@ {
        PERMANENT_ACCESS@
    } else if rental.remaining_seconds is Some {
        remaining_text_spec(rental.remaining_seconds->0 as int)
    } else if rental.product_status_label@.len() > 0 {
        rental.product_status_label@
    } else {
        PROGRAM_ACCESS@
    }
}

/// The subtitle of a game card.
pub fn rental_subtitle(rental: &Rental, profile: &ProgramProfile) -> (r: String)
    ensures
        r@ == rental_subtitle_spec(*rental, profile@.subtitle),
{
    if !profile.subtitle.is_empty() {
        profile.subtitle.to_owned()
    } else if rental.is_permanent || str_equal(rental.rental_status.as_str(), RENTAL_PERMANENT) {
        PERMANENT_ACCESS.to_owned()
    } else if let Some(seconds) = rental.remaining_seconds {
        remaining_text(seconds)
    } else if !rental.product_status_label.as_str().is_empty() {
        rental.product_status_label.clone()
    } else {
        PROGRAM_ACCESS.to_owned()
    }
}

// ---------------------------------------------------------------------------
// The detail page
// ---------------------------------------------------------------------------

pub const PERMANENT: &'static str = "Permanent";

pub const NO_COMMAND_CONFIGURED: &'static str = "No command configured";

/// How many launch steps the detail page lists at most.
pub const MAX_LISTED_STEPS: usize = 4;

/// A labelled line of the detail page.
pub struct DetailRow {
    pub key: &'static str,
    pub value: String,
}

impl View for DetailRow {
    type V = (Seq<char>, Seq<char>);

    open spec fn view(&self) -> (Seq<char>, Seq<char>) {
        (self.key@, self.value@)
    }
}

/// When the rental ends: "Permanent", else its end time shortened ("-" when
/// it has none).
pub open spec fn expiry_text_spec(rental: Rental) -> Seq<char> {
    if rental.is_permanent {
        PERMANENT@
    } else {
        short_datetime_spec(
            match rental.expires_at {
                Some(e) => e@,
                None => "-"@,
            },
        )
    }
}

/// The lines of the detail page's access card, in order: product, status,
/// start, last update, end, and the time left when the rental has one.
pub open spec fn detail_rows_spec(rental: Rental) -> Seq<(Seq<char>, Seq<char>)> {
    let rows = seq![
        ("Product"@, rental.product_status_label@),
        ("Status"@, rental.product_status@),
        ("Started"@, short_datetime_spec(rental.started_at@)),
        ("Updated"@, short_datetime_spec(rental.updated_at@)),
        ("Expires"@, expiry_text_spec(rental)),
    ];
    match rental.remaining_seconds {
        Some(seconds) => rows.push(("Remaining"@, remaining_text_spec(seconds as int))),
        None => rows,
    }
}

/// The lines of the detail page's access card.
pub fn detail_rows(rental: &Rental) -> (r: Vec<DetailRow>)
    ensures
        r@.map_values(|row: DetailRow| row@) == detail_rows_spec(*rental),
{
    let expires = if rental.is_permanent {
        PERMANENT.to_owned()
    } else {
        match &rental.expires_at {
            Some(e) => short_datetime(e.as_str()),
            None => short_datetime("-"),
        }
    };
    let mut r: Vec<DetailRow> = Vec::new();
    r.push(DetailRow { key: "Product", value: rental.product_status_label.clone() });
    r.push(DetailRow { key: "Status", value: rental.product_status.clone() });
    r.push(DetailRow { key: "Started", value: short_datetime(rental.started_at.as_str()) });
    r.push(DetailRow { key: "Updated", value: short_datetime(rental.updated_at.as_str()) });
    r.push(DetailRow { key: "Expires", value: expires });
    if let Some(seconds) = rental.remaining_seconds {
        r.push(DetailRow { key: "Remaining", value: remaining_text(seconds) });
    }
    assert(r@.map_values(|row: DetailRow| row@) =~= detail_rows_spec(*rental));
    r
}

/// The lines listing a profile's launch steps: the labels of its first four
/// steps, or "No command configured" when it has none.
pub open spec fn step_lines_spec(steps: Seq<LaunchStepView>) -> Seq<Seq<char>> {
    if steps.len() == 0 {
        seq![NO_COMMAND_CONFIGURED@]
    } else {
        steps.take(
            if steps.len() < MAX_LISTED_STEPS {
                steps.len() as int
            } else {
                MAX_LISTED_STEPS as int
            },
        ).map_values(|st: LaunchStepView| st.label)
    }
}

/// The lines listing the launch steps of `profile`.
pub fn step_lines(profile: &ProgramProfile) -> (r: Vec<&'static str>)
    ensures
        strs_view(r@) == step_lines_spec(profile@.launch_steps),
{
    let mut r: Vec<&'static str> = Vec::new();
    if profile.launch_steps.len() == 0 {
        r.push(NO_COMMAND_CONFIGURED);
        assert(strs_view(r@) =~= step_lines_spec(profile@.launch_steps));
        return r;
    }
    let n: usize = if profile.launch_steps.len() < MAX_LISTED_STEPS {
        profile.launch_steps.len()
    } else {
        MAX_LISTED_STEPS
    };
    let ghost steps = profile@.launch_steps;
    let mut i: usize = 0;
    while i < n
        invariant
            0 <= i <= n,
            n <= profile.launch_steps.len(),
            steps == profile@.launch_steps,
            strs_view(r@) =~= steps.take(i as int).map_values(|st: LaunchStepView| st.label),
        decreases n - i,
    {
        let step: &LaunchStep = &profile.launch_steps[i];
        let ghost before = r@;
        r.push(step.label);
        assert(steps[i as int] == profile.launch_steps@[i as int]@);
        assert(strs_view(r@) =~= strs_view(before).push(step.label@));
        assert(steps.take(i + 1) =~= steps.take(i as int).push(steps[i as int]));
        i += 1;
        assert(strs_view(r@) =~= steps.take(i as int).map_values(|st: LaunchStepView| st.label));
    }
    r
}

/// The title of a notice of kind `kind`.
pub open spec fn notice_title_spec(kind: StatusKind) -> Seq<char> {
    match kind {
        StatusKind::Success => "Success"@,
        StatusKind::Warning => "Warning"@,
        StatusKind::Error => "Error"@,
        StatusKind::Info => "Info"@,
    }
}

/// The title of a notice of kind `kind`.
pub fn notice_title(kind: StatusKind) -> (r: &'static str)
    ensures
        r@ == notice_title_spec(kind),
{
    match kind {
        StatusKind::Success => "Success",
        StatusKind::Warning => "Warning",
        StatusKind::Error => "Error",
        StatusKind::Info => "Info",
    }
}

// ---------------------------------------------------------------------------
// Card colours
// ---------------------------------------------------------------------------

/// One step of the 32-bit FNV-1a hash.
pub open spec fn fnv1a_step(hash: u32, byte: u8) -> u32 {
    (((hash ^ (byte as u32)) as int * 16777619) % 0x1_0000_0000) as u32
}

/// The 32-bit FNV-1a hash of `bytes`.
pub open spec fn fnv1a(bytes: Seq<u8>) -> u32
    decreases bytes.len(),
{
    if bytes.len() == 0 {
        2166136261u32
    } else {
        fnv1a_step(fnv1a(bytes.drop_last()), bytes.last())
    }
}

/// The 32-bit FNV-1a hash of the UTF-8 bytes of `text`.
pub fn hash_text(text: &str) -> (r: u32)
    ensures
        r == fnv1a(vstd::utf8::encode_utf8(text@)),
{
    let bytes = text.as_bytes();
    let mut hash: u32 = 2166136261;
    let mut i: usize = 0;
    while i < bytes.len()
        invariant
            0 <= i <= bytes.len(),
            hash == fnv1a(bytes@.take(i as int)),
        decreases bytes.len() - i,
    {
        let mixed = (hash ^ (bytes[i] as u32)) as u64;
        let product = mixed * 16777619u64;
        hash = (product % 0x1_0000_0000u64) as u32;
        i += 1;
        assert(bytes@.take(i as int).drop_last() =~= bytes@.take(i - 1));
    }
    assert(bytes@.take(bytes.len() as int) =~= bytes@);
    hash
}

/// Which of the six default palettes a card gets: the name's hash plus 97
/// times its position, wrapping at 32 bits, modulo 6.
pub open spec fn palette_seed_spec(index: u32, name: Seq<char>) -> u32 {
    (((fnv1a(vstd::utf8::encode_utf8(name)) as int + index as int * 97) % 0x1_0000_0000) % 6) as u32
}

/// Which of the six default palettes the card at `index` named `name` gets.
pub fn palette_seed(index: u32, name: &str) -> (r: u32)
    requires
        index as int * 97 <= u32::MAX,
    ensures
        r == palette_seed_spec(index, name@),
        r < 6,
{
    let h = hash_text(name) as u64;
    let sum = (h + (index as u64) * 97) % 0x1_0000_0000u64;
    (sum % 6) as u32
}

// ---------------------------------------------------------------------------
// Laws
// ---------------------------------------------------------------------------

/// A shortened text holds at most `max_chars` characters of the text plus
/// the three dots, and is cut only when the trimmed text is longer.
pub proof fn law_compact_text_bounded(text: Seq<char>, max_chars: nat)
    ensures
        compact_text_spec(text, max_chars).len() <= max_chars + 3,
        trim(text).len() <= max_chars ==> compact_text_spec(text, max_chars).len() == trim(
            text,
        ).len(),
{
    reveal_strlit("...");
}

/// A toast has one or two lines, and its first line holds at most
/// `first_max` characters.
pub proof fn law_toast_lines_shape(text: Seq<char>, first_max: nat, second_max: nat)
    ensures
        1 <= toast_lines_spec(text, first_max, second_max).len() <= 2,
        toast_lines_spec(text, first_max, second_max)[0].len() <= first_max + second_max + 4,
        compact_text_spec(text, first_max + second_max + 1).len() > first_max ==> toast_lines_spec(
            text,
            first_max,
            second_max,
        )[0].len() == first_max,
{
    law_compact_text_bounded(text, first_max + second_max + 1);
}

} // verus!
