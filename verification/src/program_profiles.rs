//! The catalogue of known programs: how each is recognised by its product
//! name, how it is shown, and which commands launch it.
use vstd::prelude::*;

use crate::text::{
    ascii_lower, ascii_lower_char, chars_of, chars_equal, contains, contains_chars,
    is_ascii_alphanumeric, is_ascii_alphanumeric_char, lemma_contains_iff, lemma_contains_self,
    occurs_at,
};

verus! {

/// The artwork drawn for a program without a cover image.
#[derive(Debug, Clone, Copy, PartialEq, Eq)]
pub enum CoverArt {
    TacticalBlue,
    MiningPink,
    CompetitiveCyan,
    StealthGreen,
    AmberOps,
    Default,
}

/// The icon of a program.
#[derive(Debug, Clone, Copy, PartialEq, Eq)]
pub enum ProgramIcon {
    Gamepad,
    Shield,
    Radar,
    Bolt,
}

/// One command run to launch a program.
#[derive(Debug)]
pub struct LaunchStep {
    pub label: &'static str,
    pub command: &'static str,
    pub args: Vec<&'static str>,
}

/// A known program.
#[derive(Debug)]
pub struct ProgramProfile {
    pub id: &'static str,
    pub match_names: Vec<&'static str>,
    pub subtitle: &'static str,
    pub cover_image: Option<&'static str>,
    pub cover_art: CoverArt,
    pub icon: ProgramIcon,
    pub launch_steps: Vec<LaunchStep>,
}

/// A launch step as text.
pub struct LaunchStepView {
    pub label: Seq<char>,
    pub command: Seq<char>,
    pub args: Seq<Seq<char>>,
}

/// A program profile as text.
pub struct ProfileView {
    pub id: Seq<char>,
    pub match_names: Seq<Seq<char>>,
    pub subtitle: Seq<char>,
    pub cover_image: Option<Seq<char>>,
    pub cover_art: CoverArt,
    pub icon: ProgramIcon,
    pub launch_steps: Seq<LaunchStepView>,
}

/// The text of each string slice.
pub open spec fn strs_view(v: Seq<&'static str>) -> Seq<Seq<char>> {
    v.map_values(|s: &'static str| s@)
}

impl View for LaunchStep {
    type V = LaunchStepView;

    open spec fn view(&self) -> LaunchStepView {
        LaunchStepView { label: self.label@, command: self.command@, args: strs_view(self.args@) }
    }
}

impl View for ProgramProfile {
    type V = ProfileView;

    open spec fn view(&self) -> ProfileView {
        ProfileView {
            id: self.id@,
            match_names: strs_view(self.match_names@),
            subtitle: self.subtitle@,
            cover_image: match self.cover_image {
                Some(s) => Some(s@),
                None => None,
            },
            cover_art: self.cover_art,
            icon: self.icon,
            launch_steps: self.launch_steps@.map_values(|s: LaunchStep| s@),
        }
    }
}

impl Clone for LaunchStep {
    fn clone(&self) -> (r: Self)
        ensures
            r@ == self@,
    {
        let mut args: Vec<&'static str> = Vec::new();
        let mut i: usize = 0;
        while i < self.args.len()
            invariant
                0 <= i <= self.args.len(),
                args@ == self.args@.take(i as int),
            decreases self.args.len() - i,
        {
            args.push(self.args[i]);
            i += 1;
            assert(self.args@.take(i as int) =~= self.args@.take(i - 1).push(self.args@[i - 1]));
        }
        assert(self.args@.take(self.args.len() as int) =~= self.args@);
        LaunchStep { label: self.label, command: self.command, args }
    }
}

impl Clone for ProgramProfile {
    fn clone(&self) -> (r: Self)
        ensures
            r@ == self@,
    {
        let mut names: Vec<&'static str> = Vec::new();
        let mut i: usize = 0;
        while i < self.match_names.len()
            invariant
                0 <= i <= self.match_names.len(),
                names@ == self.match_names@.take(i as int),
            decreases self.match_names.len() - i,
        {
            names.push(self.match_names[i]);
            i += 1;
            assert(self.match_names@.take(i as int) =~= self.match_names@.take(i - 1).push(
                self.match_names@[i - 1],
            ));
        }
        assert(self.match_names@.take(self.match_names.len() as int) =~= self.match_names@);
        let mut steps: Vec<LaunchStep> = Vec::new();
        let mut k: usize = 0;
        while k < self.launch_steps.len()
            invariant
                0 <= k <= self.launch_steps.len(),
                steps@.len() == k,
                forall|j: int| 0 <= j < k ==> #[trigger] steps@[j]@ == self.launch_steps@[j]@,
            decreases self.launch_steps.len() - k,
        {
            steps.push(self.launch_steps[k].clone());
            k += 1;
        }
        let r = ProgramProfile {
            id: self.id,
            match_names: names,
            subtitle: self.subtitle,
            cover_image: self.cover_image,
            cover_art: self.cover_art,
            icon: self.icon,
            launch_steps: steps,
        };
        assert(r@.launch_steps =~= self@.launch_steps);
        r
    }
}

// ---------------------------------------------------------------------------
// Matching
// ---------------------------------------------------------------------------

/// The ASCII letters and digits of `s`, in lower case, in order.
pub open spec fn normalize_spec(s: Seq<char>) -> Seq<char>
    decreases s.len(),
{
    if s.len() == 0 {
        Seq::empty()
    } else {
        let rest = normalize_spec(s.drop_last());
        if is_ascii_alphanumeric(s.last()) {
            rest.push(ascii_lower(s.last()))
        } else {
            rest
        }
    }
}

/// The normalized program name matches the match name `name`: it equals or
/// contains the normalized match name.
pub open spec fn name_matches(normalized: Seq<char>, name: Seq<char>) -> bool {
    let candidate = normalize_spec(name);
    normalized == candidate || contains(normalized, candidate)
}

/// `profile` matches the product name `program_name`: one of its match
/// names matches the normalized product name.
pub open spec fn profile_matches(profile: ProfileView, program_name: Seq<char>) -> bool {
    exists|j: int|
        0 <= j < profile.match_names.len() && name_matches(
            normalize_spec(program_name),
            #[trigger] profile.match_names[j],
        )
}

/// The first profile of `table` that matches `program_name`, or the default
/// profile when none does.
pub open spec fn select_profile(table: Seq<ProfileView>, program_name: Seq<char>) -> ProfileView
    decreases table.len(),
{
    if table.len() == 0 {
        default_profile_view()
    } else if profile_matches(table[0], program_name) {
        table[0]
    } else {
        select_profile(table.drop_first(), program_name)
    }
}

/// The normalized form of `value`: its ASCII letters and digits in lower
/// case.
pub fn normalize(value: &str) -> (r: Vec<char>)
    ensures
        r@ == normalize_spec(value@),
{
    let v = chars_of(value);
    let mut out: Vec<char> = Vec::new();
    let mut i: usize = 0;
    while i < v.len()
        invariant
            0 <= i <= v.len(),
            out@ == normalize_spec(v@.take(i as int)),
        decreases v.len() - i,
    {
        let c = v[i];
        assert(v@.take(i + 1).drop_last() =~= v@.take(i as int));
        if is_ascii_alphanumeric_char(c) {
            out.push(ascii_lower_char(c));
        }
        i += 1;
    }
    assert(v@.take(v.len() as int) =~= v@);
    out
}

impl ProgramProfile {
    /// Whether one of this profile's match names matches `program_name`.
    pub fn matches(&self, program_name: &str) -> (r: bool)
        ensures
            r == profile_matches(self@, program_name@),
    {
        let normalized = normalize(program_name);
        let mut j: usize = 0;
        while j < self.match_names.len()
            invariant
                0 <= j <= self.match_names.len(),
                normalized@ == normalize_spec(program_name@),
                forall|k: int|
                    0 <= k < j ==> !name_matches(normalized@, #[trigger] self@.match_names[k]),
            decreases self.match_names.len() - j,
        {
            let candidate = normalize(self.match_names[j]);
            if chars_equal(&normalized, &candidate) || contains_chars(&normalized, &candidate) {
                assert(name_matches(normalized@, self@.match_names[j as int]));
                return true;
            }
            j += 1;
        }
        false
    }
}

// ---------------------------------------------------------------------------
// The catalogue
// ---------------------------------------------------------------------------

/// The profile of a program that no entry of the catalogue matches.
pub open spec fn default_profile_view() -> ProfileView {
    ProfileView {
        id: "default"@,
        match_names: Seq::empty(),
        subtitle: ""@,
        cover_image: None,
        cover_art: CoverArt::Default,
        icon: ProgramIcon::Gamepad,
        launch_steps: Seq::empty(),
    }
}

pub open spec fn step_view(label: &'static str, command: &'static str, args: Seq<&'static str>) -> LaunchStepView {
    LaunchStepView { label: label@, command: command@, args: strs_view(args) }
}

/// The catalogue of known programs, in the order in which they are tried.
pub open spec fn profile_table() -> Seq<ProfileView> {
    seq![
        ProfileView {
            id: "design_suite_pro"@,
            match_names: strs_view(seq!["Design Suite Pro", "Design Suite"]),
            subtitle: "Creative tools access"@,
            cover_image: Some("assets/program_covers/design_suite_pro.png"@),
            cover_art: CoverArt::TacticalBlue,
            icon: ProgramIcon::Shield,
            launch_steps: seq![
                step_view("Run design suite", "C:\\NovaLoader\\design_suite_pro.exe", seq![]),
            ],
        },
        ProfileView {
            id: "fps_optimizer_x"@,
            match_names: strs_view(seq!["FPS Optimizer X", "FPS Optimizer", "Optimizer X"]),
            subtitle: "Performance profile"@,
            cover_image: Some("assets/program_covers/fps_optimizer_x.png"@),
            cover_art: CoverArt::CompetitiveCyan,
            icon: ProgramIcon::Bolt,
            launch_steps: seq![
                step_view("Run FPS optimizer", "C:\\NovaLoader\\fps_optimizer_x.exe", seq![]),
            ],
        },
        ProfileView {
            id: "game_booster_pro"@,
            match_names: strs_view(seq!["Game Booster Pro", "Game Booster"]),
            subtitle: "Booster access package"@,
            cover_image: Some("assets/program_covers/game_booster_pro.png"@),
            cover_art: CoverArt::StealthGreen,
            icon: ProgramIcon::Gamepad,
            launch_steps: seq![
                step_view("Run game booster", "C:\\NovaLoader\\game_booster_pro.exe", seq![]),
            ],
        },
        ProfileView {
            id: "warface"@,
            match_names: strs_view(seq!["WARFACE", "Warface", "Ahohc Warface"]),
            subtitle: "Tactical loader profile"@,
            cover_image: Some("assets/program_covers/warface.png"@),
            cover_art: CoverArt::TacticalBlue,
            icon: ProgramIcon::Shield,
            launch_steps: seq![
                step_view("Run game loader", "C:\\NovaLoader\\warface_loader.exe", seq![]),
                step_view(
                    "Start companion",
                    "C:\\NovaLoader\\warface_companion.exe",
                    seq!["--silent"],
                ),
            ],
        },
        ProfileView {
            id: "mining"@,
            match_names: strs_view(seq!["MINING", "Mining Event", "Hafif Madencilik"]),
            subtitle: "Mining event utilities"@,
            cover_image: Some("assets/program_covers/mining.png"@),
            cover_art: CoverArt::MiningPink,
            icon: ProgramIcon::Bolt,
            launch_steps: seq![
                step_view("Run mining tool", "C:\\NovaLoader\\mining_tool.exe", seq![]),
            ],
        },
        ProfileView {
            id: "competitive"@,
            match_names: strs_view(seq!["COMPETITIVE", "Rekabet", "Competitive Mode"]),
            subtitle: "Competitive mode package"@,
            cover_image: Some("assets/program_covers/competitive.png"@),
            cover_art: CoverArt::CompetitiveCyan,
            icon: ProgramIcon::Radar,
            launch_steps: seq![
                step_view(
                    "Run competitive loader",
                    "C:\\NovaLoader\\competitive_loader.exe",
                    seq!["--mode", "ranked"],
                ),
            ],
        },
    ]
}

/// The profile of a program that no entry of the catalogue matches.
pub fn default_profile() -> (r: ProgramProfile)
    ensures
        r@ == default_profile_view(),
{
    let r = ProgramProfile {
        id: "default",
        match_names: Vec::new(),
        subtitle: "",
        cover_image: None,
        cover_art: CoverArt::Default,
        icon: ProgramIcon::Gamepad,
        launch_steps: Vec::new(),
    };
    assert(r@.match_names =~= Seq::<Seq<char>>::empty());
    assert(r@.launch_steps =~= Seq::<LaunchStepView>::empty());
    r
}

fn step(label: &'static str, command: &'static str, args: Vec<&'static str>) -> (r: LaunchStep)
    ensures
        r@ == step_view(label, command, args@),
{
    LaunchStep { label, command, args }
}

fn one_step(a: LaunchStep) -> (r: Vec<LaunchStep>)
    ensures
        r@.map_values(|s: LaunchStep| s@) == seq![a@],
{
    let ghost va = a@;
    let r = vec![a];
    assert(r@.map_values(|s: LaunchStep| s@) =~= seq![va]);
    r
}

fn one_arg(a: &'static str) -> (r: Vec<&'static str>)
    ensures
        r@ == seq![a],
{
    let mut r: Vec<&'static str> = Vec::new();
    r.push(a);
    r
}

fn two_steps(a: LaunchStep, b: LaunchStep) -> (r: Vec<LaunchStep>)
    ensures
        r@.map_values(|s: LaunchStep| s@) == seq![a@, b@],
{
    let ghost va = a@;
    let ghost vb = b@;
    let r = vec![a, b];
    assert(r@.map_values(|s: LaunchStep| s@) =~= seq![va, vb]);
    r
}

fn profile(
    id: &'static str,
    match_names: Vec<&'static str>,
    subtitle: &'static str,
    cover_image: &'static str,
    cover_art: CoverArt,
    icon: ProgramIcon,
    launch_steps: Vec<LaunchStep>,
) -> (r: ProgramProfile)
    ensures
        r.id == id,
        r.match_names@ == match_names@,
        r.subtitle == subtitle,
        r.cover_image == Some(cover_image),
        r.cover_art == cover_art,
        r.icon == icon,
        r.launch_steps@ == launch_steps@,
        r@ == (ProfileView {
            id: id@,
            match_names: strs_view(match_names@),
            subtitle: subtitle@,
            cover_image: Some(cover_image@),
            cover_art,
            icon,
            launch_steps: launch_steps@.map_values(|s: LaunchStep| s@),
        }),
{
    ProgramProfile {
        id,
        match_names,
        subtitle,
        cover_image: Some(cover_image),
        cover_art,
        icon,
        launch_steps,
    }
}

/// The catalogue of known programs, in the order in which they are tried.
pub fn program_profiles() -> (r: Vec<ProgramProfile>)
    ensures
        r@.map_values(|p: ProgramProfile| p@) == profile_table(),
{
    let mut r: Vec<ProgramProfile> = Vec::new();
    let p0 = profile(
        "design_suite_pro",
        vec!["Design Suite Pro", "Design Suite"],
        "Creative tools access",
        "assets/program_covers/design_suite_pro.png",
        CoverArt::TacticalBlue,
        ProgramIcon::Shield,
        one_step(step("Run design suite", "C:\\NovaLoader\\design_suite_pro.exe", vec![])),
    );
    assert(p0@ == profile_table()[0]);
    r.push(p0);
    let p1 = profile(
        "fps_optimizer_x",
        vec!["FPS Optimizer X", "FPS Optimizer", "Optimizer X"],
        "Performance profile",
        "assets/program_covers/fps_optimizer_x.png",
        CoverArt::CompetitiveCyan,
        ProgramIcon::Bolt,
        one_step(step("Run FPS optimizer", "C:\\NovaLoader\\fps_optimizer_x.exe", vec![])),
    );
    assert(p1@ == profile_table()[1]);
    r.push(p1);
    let p2 = profile(
        "game_booster_pro",
        vec!["Game Booster Pro", "Game Booster"],
        "Booster access package",
        "assets/program_covers/game_booster_pro.png",
        CoverArt::StealthGreen,
        ProgramIcon::Gamepad,
        one_step(step("Run game booster", "C:\\NovaLoader\\game_booster_pro.exe", vec![])),
    );
    assert(p2@ == profile_table()[2]);
    r.push(p2);
    let loader = step("Run game loader", "C:\\NovaLoader\\warface_loader.exe", vec![]);
    let companion = step(
        "Start companion",
        "C:\\NovaLoader\\warface_companion.exe",
        one_arg("--silent"),
    );
    let warface_steps = two_steps(loader, companion);
    let p3 = profile(
        "warface",
        vec!["WARFACE", "Warface", "Ahohc Warface"],
        "Tactical loader profile",
        "assets/program_covers/warface.png",
        CoverArt::TacticalBlue,
        ProgramIcon::Shield,
        warface_steps,
    );
    assert(p3@ == profile_table()[3]);
    r.push(p3);
    let p4 = profile(
        "mining",
        vec!["MINING", "Mining Event", "Hafif Madencilik"],
        "Mining event utilities",
        "assets/program_covers/mining.png",
        CoverArt::MiningPink,
        ProgramIcon::Bolt,
        one_step(step("Run mining tool", "C:\\NovaLoader\\mining_tool.exe", vec![])),
    );
    assert(p4@ == profile_table()[4]);
    r.push(p4);
    let p5 = profile(
        "competitive",
        vec!["COMPETITIVE", "Rekabet", "Competitive Mode"],
        "Competitive mode package",
        "assets/program_covers/competitive.png",
        CoverArt::CompetitiveCyan,
        ProgramIcon::Radar,
        one_step(
            step(
                "Run competitive loader",
                "C:\\NovaLoader\\competitive_loader.exe",
                vec!["--mode", "ranked"],
            ),
        ),
    );
    assert(p5@ == profile_table()[5]);
    r.push(p5);
    assert(r@.map_values(|p: ProgramProfile| p@) =~= profile_table());
    r
}

/// The profile of the first catalogue entry that matches `program_name`, or
/// the default profile.
pub fn profile_for(program_name: &str) -> (r: ProgramProfile)
    ensures
        r@ == select_profile(profile_table(), program_name@),
{
    let profiles = program_profiles();
    let ghost table = profile_table();
    let mut i: usize = 0;
    assert(table.subrange(0, table.len() as int) =~= table);
    while i < profiles.len()
        invariant
            0 <= i <= profiles.len(),
            profiles@.map_values(|p: ProgramProfile| p@) == table,
            table == profile_table(),
            select_profile(table, program_name@) == select_profile(
                table.subrange(i as int, table.len() as int),
                program_name@,
            ),
        decreases profiles.len() - i,
    {
        let ghost rest = table.subrange(i as int, table.len() as int);
        assert(rest[0] == profiles@[i as int]@);
        if profiles[i].matches(program_name) {
            return profiles[i].clone();
        }
        assert(rest.drop_first() =~= table.subrange(i + 1, table.len() as int));
        i += 1;
    }
    assert(table.subrange(i as int, table.len() as int) =~= Seq::<ProfileView>::empty());
    default_profile()
}

// ---------------------------------------------------------------------------
// Laws
// ---------------------------------------------------------------------------

/// Normalizing twice is normalizing once.
pub proof fn law_normalize_idempotent(s: Seq<char>)
    ensures
        normalize_spec(normalize_spec(s)) == normalize_spec(s),
    decreases s.len(),
{
    if s.len() > 0 {
        law_normalize_idempotent(s.drop_last());
        let rest = normalize_spec(s.drop_last());
        if is_ascii_alphanumeric(s.last()) {
            let c = ascii_lower(s.last());
            assert(rest.push(c).drop_last() =~= rest);
        }
    }
}

/// Which profile a product name selects depends only on its normalized
/// form: case, spaces and punctuation do not matter.
pub proof fn law_profile_ignores_case_and_punctuation(table: Seq<ProfileView>, program_name: Seq<char>)
    ensures
        select_profile(table, normalize_spec(program_name)) == select_profile(table, program_name),
    decreases table.len(),
{
    law_normalize_idempotent(program_name);
    if table.len() > 0 {
        law_profile_ignores_case_and_punctuation(table.drop_first(), program_name);
    }
}

/// A product name that is exactly one of a profile's match names matches
/// that profile.
pub proof fn law_match_name_matches(profile: ProfileView, j: int)
    requires
        0 <= j < profile.match_names.len(),
    ensures
        profile_matches(profile, profile.match_names[j]),
{
    lemma_contains_self(normalize_spec(profile.match_names[j]));
    assert(name_matches(normalize_spec(profile.match_names[j]), profile.match_names[j]));
}

/// The selected profile is either the default or an entry of the table that
/// matches, and no earlier entry matches.
pub proof fn law_select_profile_is_first_match(table: Seq<ProfileView>, program_name: Seq<char>)
    ensures
        select_profile(table, program_name) == default_profile_view() && (forall|i: int|
            0 <= i < table.len() ==> !profile_matches(#[trigger] table[i], program_name))
            || exists|i: int|
            0 <= i < table.len() && select_profile(table, program_name) == table[i]
                && profile_matches(table[i], program_name) && forall|k: int|
                0 <= k < i ==> !profile_matches(#[trigger] table[k], program_name),
    decreases table.len(),
{
    if table.len() > 0 {
        law_select_profile_is_first_match(table.drop_first(), program_name);
        if profile_matches(table[0], program_name) {
            assert(select_profile(table, program_name) == table[0]);
        } else {
            let rest = table.drop_first();
            if exists|i: int|
                0 <= i < rest.len() && select_profile(rest, program_name) == rest[i]
                    && profile_matches(rest[i], program_name) && forall|k: int|
                    0 <= k < i ==> !profile_matches(#[trigger] rest[k], program_name) {
                let i = choose|i: int|
                    0 <= i < rest.len() && select_profile(rest, program_name) == rest[i]
                        && profile_matches(rest[i], program_name) && forall|k: int|
                        0 <= k < i ==> !profile_matches(#[trigger] rest[k], program_name);
                assert(table[i + 1] == rest[i]);
                assert forall|k: int| 0 <= k < i + 1 implies !profile_matches(
                    #[trigger] table[k],
                    program_name,
                ) by {
                    if k > 0 {
                        assert(table[k] == rest[k - 1]);
                    }
                }
            } else {
                assert forall|i: int| 0 <= i < table.len() implies !profile_matches(
                    #[trigger] table[i],
                    program_name,
                ) by {
                    if i > 0 {
                        assert(table[i] == rest[i - 1]);
                    }
                }
            }
        }
    }
}


// ---------------------------------------------------------------------------
// No catalogue entry is shadowed by an earlier one
// ---------------------------------------------------------------------------

/// No position of `s` from `i` on, where `p` would still fit, begins with
/// the first two characters of `p`.
pub open spec fn no_start_from(s: Seq<char>, p: Seq<char>, i: int) -> bool
    decreases s.len() - i,
{
    if p.len() < 2 || i < 0 || i + p.len() > s.len() {
        true
    } else {
        (s[i] != p[0] || s[i + 1] != p[1]) && no_start_from(s, p, i + 1)
    }
}

/// A reason why `p` can neither equal `s` nor occur inside it: no position
/// of `s` where `p` fits begins with `p`'s first two characters.
pub open spec fn excludes(s: Seq<char>, p: Seq<char>) -> bool {
    p.len() >= 2 && no_start_from(s, p, 0)
}

/// `s` excludes each of `ps`.
pub open spec fn excludes_each(s: Seq<char>, ps: Seq<Seq<char>>) -> bool
    decreases ps.len(),
{
    ps.len() == 0 || (excludes(s, ps.last()) && excludes_each(s, ps.drop_last()))
}

/// Each of `names` excludes each of `ps`.
pub open spec fn names_exclude(names: Seq<Seq<char>>, ps: Seq<Seq<char>>) -> bool
    decreases names.len(),
{
    names.len() == 0 || (excludes_each(names.last(), ps) && names_exclude(names.drop_last(), ps))
}

/// Each of `names` excludes each name of each group in `earlier`.
pub open spec fn earlier_exclude(names: Seq<Seq<char>>, earlier: Seq<Seq<Seq<char>>>) -> bool
    decreases earlier.len(),
{
    earlier.len() == 0 || (names_exclude(names, earlier.last()) && earlier_exclude(
        names,
        earlier.drop_last(),
    ))
}

/// The normalized match names of the catalogue, profile by profile.
pub open spec fn catalogue_keys() -> Seq<Seq<Seq<char>>> {
    seq![
        seq![
            seq!['d', 'e', 's', 'i', 'g', 'n', 's', 'u', 'i', 't', 'e', 'p', 'r', 'o'],
            seq!['d', 'e', 's', 'i', 'g', 'n', 's', 'u', 'i', 't', 'e'],
        ],
        seq![
            seq!['f', 'p', 's', 'o', 'p', 't', 'i', 'm', 'i', 'z', 'e', 'r', 'x'],
            seq!['f', 'p', 's', 'o', 'p', 't', 'i', 'm', 'i', 'z', 'e', 'r'],
            seq!['o', 'p', 't', 'i', 'm', 'i', 'z', 'e', 'r', 'x'],
        ],
        seq![
            seq!['g', 'a', 'm', 'e', 'b', 'o', 'o', 's', 't', 'e', 'r', 'p', 'r', 'o'],
            seq!['g', 'a', 'm', 'e', 'b', 'o', 'o', 's', 't', 'e', 'r'],
        ],
        seq![
            seq!['w', 'a', 'r', 'f', 'a', 'c', 'e'],
            seq!['w', 'a', 'r', 'f', 'a', 'c', 'e'],
            seq!['a', 'h', 'o', 'h', 'c', 'w', 'a', 'r', 'f', 'a', 'c', 'e'],
        ],
        seq![
            seq!['m', 'i', 'n', 'i', 'n', 'g'],
            seq!['m', 'i', 'n', 'i', 'n', 'g', 'e', 'v', 'e', 'n', 't'],
            seq!['h', 'a', 'f', 'i', 'f', 'm', 'a', 'd', 'e', 'n', 'c', 'i', 'l', 'i', 'k'],
        ],
        seq![
            seq!['c', 'o', 'm', 'p', 'e', 't', 'i', 't', 'i', 'v', 'e'],
            seq!['r', 'e', 'k', 'a', 'b', 'e', 't'],
            seq!['c', 'o', 'm', 'p', 'e', 't', 'i', 't', 'i', 'v', 'e', 'm', 'o', 'd', 'e'],
        ],
    ]
}

proof fn lemma_no_start_from(s: Seq<char>, p: Seq<char>, i0: int, i: int)
    requires
        p.len() >= 2,
        0 <= i0 <= i,
        no_start_from(s, p, i0),
    ensures
        !occurs_at(s, p, i),
    decreases i - i0,
{
    if i0 < i {
        if i0 + p.len() <= s.len() {
            lemma_no_start_from(s, p, i0 + 1, i);
        }
    } else if occurs_at(s, p, i) {
        assert(s.subrange(i, i + p.len())[0] == p[0]);
        assert(s.subrange(i, i + p.len())[1] == p[1]);
    }
}

proof fn lemma_excludes(s: Seq<char>, p: Seq<char>)
    requires
        excludes(s, p),
    ensures
        s != p,
        !contains(s, p),
{
    lemma_contains_iff(s, p);
    assert forall|i: int| !occurs_at(s, p, i) by {
        if i >= 0 {
            lemma_no_start_from(s, p, 0, i);
        }
    }
    if s == p {
        assert(s.subrange(0, p.len() as int) =~= p);
        assert(occurs_at(s, p, 0));
    }
}

proof fn lemma_excludes_each(s: Seq<char>, ps: Seq<Seq<char>>, i: int)
    requires
        excludes_each(s, ps),
        0 <= i < ps.len(),
    ensures
        excludes(s, ps[i]),
    decreases ps.len(),
{
    if i < ps.len() - 1 {
        lemma_excludes_each(s, ps.drop_last(), i);
    }
}

proof fn lemma_names_exclude(names: Seq<Seq<char>>, ps: Seq<Seq<char>>, j: int, i: int)
    requires
        names_exclude(names, ps),
        0 <= j < names.len(),
        0 <= i < ps.len(),
    ensures
        excludes(names[j], ps[i]),
    decreases names.len(),
{
    if j < names.len() - 1 {
        lemma_names_exclude(names.drop_last(), ps, j, i);
    } else {
        lemma_excludes_each(names[j], ps, i);
    }
}

proof fn lemma_earlier_exclude(
    names: Seq<Seq<char>>,
    earlier: Seq<Seq<Seq<char>>>,
    q: int,
    j: int,
    i: int,
)
    requires
        earlier_exclude(names, earlier),
        0 <= q < earlier.len(),
        0 <= j < names.len(),
        0 <= i < earlier[q].len(),
    ensures
        excludes(names[j], earlier[q][i]),
    decreases earlier.len(),
{
    if q < earlier.len() - 1 {
        lemma_earlier_exclude(names, earlier.drop_last(), q, j, i);
    } else {
        lemma_names_exclude(names, earlier[q], j, i);
    }
}

// The match names of each catalogue entry, normalized by unfolding
// `normalize_spec` over their characters; one entry per lemma keeps each
// proof small.
proof fn lemma_names_normalize_0()
    ensures
        normalize_spec("Design Suite Pro"@) == catalogue_keys()[0][0],
        normalize_spec("Design Suite"@) == catalogue_keys()[0][1],
{
    reveal_with_fuel(normalize_spec, 17);
    reveal_strlit("Design Suite Pro");
    assert(normalize_spec("Design Suite Pro"@) =~= catalogue_keys()[0][0]);
    reveal_strlit("Design Suite");
    assert(normalize_spec("Design Suite"@) =~= catalogue_keys()[0][1]);
}

proof fn lemma_names_normalize_1()
    ensures
        normalize_spec("FPS Optimizer X"@) == catalogue_keys()[1][0],
        normalize_spec("FPS Optimizer"@) == catalogue_keys()[1][1],
        normalize_spec("Optimizer X"@) == catalogue_keys()[1][2],
{
    reveal_with_fuel(normalize_spec, 17);
    reveal_strlit("FPS Optimizer X");
    assert(normalize_spec("FPS Optimizer X"@) =~= catalogue_keys()[1][0]);
    reveal_strlit("FPS Optimizer");
    assert(normalize_spec("FPS Optimizer"@) =~= catalogue_keys()[1][1]);
    reveal_strlit("Optimizer X");
    assert(normalize_spec("Optimizer X"@) =~= catalogue_keys()[1][2]);
}

proof fn lemma_names_normalize_2()
    ensures
        normalize_spec("Game Booster Pro"@) == catalogue_keys()[2][0],
        normalize_spec("Game Booster"@) == catalogue_keys()[2][1],
{
    reveal_with_fuel(normalize_spec, 17);
    reveal_strlit("Game Booster Pro");
    assert(normalize_spec("Game Booster Pro"@) =~= catalogue_keys()[2][0]);
    reveal_strlit("Game Booster");
    assert(normalize_spec("Game Booster"@) =~= catalogue_keys()[2][1]);
}

proof fn lemma_names_normalize_3()
    ensures
        normalize_spec("WARFACE"@) == catalogue_keys()[3][0],
        normalize_spec("Warface"@) == catalogue_keys()[3][1],
        normalize_spec("Ahohc Warface"@) == catalogue_keys()[3][2],
{
    reveal_with_fuel(normalize_spec, 17);
    reveal_strlit("WARFACE");
    assert(normalize_spec("WARFACE"@) =~= catalogue_keys()[3][0]);
    reveal_strlit("Warface");
    assert(normalize_spec("Warface"@) =~= catalogue_keys()[3][1]);
    reveal_strlit("Ahohc Warface");
    assert(normalize_spec("Ahohc Warface"@) =~= catalogue_keys()[3][2]);
}

proof fn lemma_names_normalize_4()
    ensures
        normalize_spec("MINING"@) == catalogue_keys()[4][0],
        normalize_spec("Mining Event"@) == catalogue_keys()[4][1],
        normalize_spec("Hafif Madencilik"@) == catalogue_keys()[4][2],
{
    reveal_with_fuel(normalize_spec, 17);
    reveal_strlit("MINING");
    assert(normalize_spec("MINING"@) =~= catalogue_keys()[4][0]);
    reveal_strlit("Mining Event");
    assert(normalize_spec("Mining Event"@) =~= catalogue_keys()[4][1]);
    reveal_strlit("Hafif Madencilik");
    assert(normalize_spec("Hafif Madencilik"@) =~= catalogue_keys()[4][2]);
}

proof fn lemma_names_normalize_5()
    ensures
        normalize_spec("COMPETITIVE"@) == catalogue_keys()[5][0],
        normalize_spec("Rekabet"@) == catalogue_keys()[5][1],
        normalize_spec("Competitive Mode"@) == catalogue_keys()[5][2],
{
    reveal_with_fuel(normalize_spec, 17);
    reveal_strlit("COMPETITIVE");
    assert(normalize_spec("COMPETITIVE"@) =~= catalogue_keys()[5][0]);
    reveal_strlit("Rekabet");
    assert(normalize_spec("Rekabet"@) =~= catalogue_keys()[5][1]);
    reveal_strlit("Competitive Mode");
    assert(normalize_spec("Competitive Mode"@) =~= catalogue_keys()[5][2]);
}

/// The match names of catalogue entry `k` normalize to `catalogue_keys()[k]`.
proof fn lemma_group_keys(k: int)
    requires
        0 <= k < profile_table().len(),
    ensures
        profile_table().len() == catalogue_keys().len(),
        profile_table()[k].match_names.len() == catalogue_keys()[k].len(),
        forall|j: int|
            0 <= j < profile_table()[k].match_names.len() ==> normalize_spec(
                #[trigger] profile_table()[k].match_names[j],
            ) == catalogue_keys()[k][j],
{
    if k == 0 {
        lemma_names_normalize_0();
    } else if k == 1 {
        lemma_names_normalize_1();
    } else if k == 2 {
        lemma_names_normalize_2();
    } else if k == 3 {
        lemma_names_normalize_3();
    } else if k == 4 {
        lemma_names_normalize_4();
    } else {
        lemma_names_normalize_5();
    }
}

/// The keys of catalogue group `k` exclude every key of the groups before it.
#[verifier::spinoff_prover]
proof fn lemma_group_unshadowed(k: int)
    requires
        0 <= k < catalogue_keys().len(),
    ensures
        earlier_exclude(catalogue_keys()[k], catalogue_keys().take(k)),
{
    reveal_with_fuel(no_start_from, 16);
    reveal_with_fuel(excludes_each, 4);
    reveal_with_fuel(names_exclude, 4);
    reveal_with_fuel(earlier_exclude, 7);
    let keys = catalogue_keys();
    if k == 0 {
        assert(earlier_exclude(keys[0], keys.take(0)));
    } else if k == 1 {
        assert(earlier_exclude(keys[1], keys.take(1)));
    } else if k == 2 {
        assert(earlier_exclude(keys[2], keys.take(2)));
    } else if k == 3 {
        assert(earlier_exclude(keys[3], keys.take(3)));
    } else if k == 4 {
        assert(earlier_exclude(keys[4], keys.take(4)));
    } else {
        assert(earlier_exclude(keys[5], keys.take(5)));
    }
}

proof fn lemma_select_at(table: Seq<ProfileView>, program_name: Seq<char>, k: int)
    requires
        0 <= k < table.len(),
        profile_matches(table[k], program_name),
        forall|q: int| 0 <= q < k ==> !profile_matches(#[trigger] table[q], program_name),
    ensures
        select_profile(table, program_name) == table[k],
    decreases k,
{
    if k > 0 {
        assert(!profile_matches(table[0], program_name));
        let rest = table.drop_first();
        assert forall|q: int| 0 <= q < k - 1 implies !profile_matches(
            #[trigger] rest[q],
            program_name,
        ) by {
            assert(rest[q] == table[q + 1]);
        }
        lemma_select_at(rest, program_name, k - 1);
    }
}

/// Every match name of every catalogue entry selects that entry: no earlier
/// entry's match name equals it or occurs inside it.
pub proof fn law_catalogue_names_select_their_profile(k: int, j: int)
    requires
        0 <= k < profile_table().len(),
        0 <= j < profile_table()[k].match_names.len(),
    ensures
        select_profile(profile_table(), profile_table()[k].match_names[j]) == profile_table()[k],
{
    let t = profile_table();
    let keys = catalogue_keys();
    let name = t[k].match_names[j];
    lemma_group_keys(k);
    lemma_group_unshadowed(k);
    law_match_name_matches(t[k], j);
    assert(normalize_spec(name) == keys[k][j]);
    assert forall|q: int| 0 <= q < k implies !profile_matches(#[trigger] t[q], name) by {
        assert(earlier_exclude(keys[k], keys.take(k)));
        assert forall|jj: int| 0 <= jj < t[q].match_names.len() implies !name_matches(
            normalize_spec(name),
            #[trigger] t[q].match_names[jj],
        ) by {
            assert(keys.take(k)[q] == keys[q]);
            lemma_group_keys(q);
            lemma_earlier_exclude(keys[k], keys.take(k), q, j, jj);
            assert(normalize_spec(t[q].match_names[jj]) == keys[q][jj]);
            lemma_excludes(keys[k][j], keys[q][jj]);
        }
    }
    lemma_select_at(t, name, k);
}


/// Normalizing a concatenation normalizes each part.
pub proof fn lemma_normalize_concat(a: Seq<char>, b: Seq<char>)
    ensures
        normalize_spec(a + b) == normalize_spec(a) + normalize_spec(b),
    decreases b.len(),
{
    if b.len() == 0 {
        assert(a + b =~= a);
        assert(normalize_spec(a) + normalize_spec(b) =~= normalize_spec(a));
    } else {
        lemma_normalize_concat(a, b.drop_last());
        assert((a + b).drop_last() =~= a + b.drop_last());
        assert((a + b).last() == b.last());
        let na = normalize_spec(a);
        let nb = normalize_spec(b.drop_last());
        if is_ascii_alphanumeric(b.last()) {
            assert(na + nb.push(ascii_lower(b.last())) =~= (na + nb).push(ascii_lower(b.last())));
        }
    }
}

/// A match name matches a normalized product name exactly when its
/// normalized form occurs in it.
pub proof fn law_name_matches_iff_contains(normalized: Seq<char>, name: Seq<char>)
    ensures
        name_matches(normalized, name) <==> contains(normalized, normalize_spec(name)),
{
    if normalized == normalize_spec(name) {
        lemma_contains_self(normalized);
    }
}

/// A product name that holds a match name of entry `k` anywhere, with any
/// text before and after it, selects an entry no later than `k`: the first
/// entry one of whose normalized match names occurs in the normalized
/// product name. No earlier entry has a match name that occurs in it.
pub proof fn law_match_name_found_anywhere(
    table: Seq<ProfileView>,
    k: int,
    j: int,
    before: Seq<char>,
    after: Seq<char>,
)
    requires
        0 <= k < table.len(),
        0 <= j < table[k].match_names.len(),
    ensures
        ({
            let name = before + table[k].match_names[j] + after;
            let n = normalize_spec(name);
            exists|i: int|
                #![trigger table[i]]
                0 <= i <= k && select_profile(table, name) == table[i] && (exists|jj: int|
                    0 <= jj < table[i].match_names.len() && contains(
                        n,
                        normalize_spec(#[trigger] table[i].match_names[jj]),
                    )) && (forall|q: int, jj: int|
                    0 <= q < i && 0 <= jj < table[q].match_names.len() ==> !contains(
                        n,
                        normalize_spec(#[trigger] table[q].match_names[jj]),
                    ))
        }),
{
    let m = table[k].match_names[j];
    let name = before + m + after;
    let n = normalize_spec(name);
    let nb = normalize_spec(before);
    let nm = normalize_spec(m);
    lemma_normalize_concat(before + m, after);
    lemma_normalize_concat(before, m);
    assert(n == nb + nm + normalize_spec(after));
    assert(n.subrange(nb.len() as int, (nb.len() + nm.len()) as int) =~= nm);
    assert(occurs_at(n, nm, nb.len() as int));
    lemma_contains_iff(n, nm);
    law_name_matches_iff_contains(n, m);
    assert(profile_matches(table[k], name));
    law_select_profile_is_first_match(table, name);
    let i = choose|i: int|
        0 <= i < table.len() && select_profile(table, name) == table[i] && profile_matches(
            table[i],
            name,
        ) && forall|q: int| 0 <= q < i ==> !profile_matches(#[trigger] table[q], name);
    if i > k {
        assert(!profile_matches(table[k], name));
    }
    let jj = choose|jj: int|
        0 <= jj < table[i].match_names.len() && name_matches(n, #[trigger] table[i].match_names[jj]);
    law_name_matches_iff_contains(n, table[i].match_names[jj]);
    assert forall|q: int, jq: int|
        0 <= q < i && 0 <= jq < table[q].match_names.len() implies !contains(
        n,
        normalize_spec(#[trigger] table[q].match_names[jq]),
    ) by {
        assert(!profile_matches(table[q], name));
        law_name_matches_iff_contains(n, table[q].match_names[jq]);
    }
}

} // verus!
