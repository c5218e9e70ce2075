use nova_loader::program_profiles::{
    default_profile, normalize, profile_for, program_profiles, CoverArt, ProgramIcon,
};

#[test]
fn known_names_select_their_profile() {
    assert_eq!(profile_for("Warface").id, "warface");
    assert_eq!(profile_for("WARFACE Season 3").id, "warface");
    assert_eq!(profile_for("design suite pro").id, "design_suite_pro");
    assert_eq!(profile_for("FPS-Optimizer X!").id, "fps_optimizer_x");
    assert_eq!(profile_for("Rekabet").id, "competitive");
    assert_eq!(profile_for("Hafif Madencilik").id, "mining");
}

#[test]
fn unknown_name_selects_default() {
    let p = profile_for("Something Else");
    assert_eq!(p.id, "default");
    assert!(p.match_names.is_empty());
    assert_eq!(p.cover_art, CoverArt::Default);
    assert_eq!(p.icon, ProgramIcon::Gamepad);
    assert_eq!(default_profile().id, "default");
}

#[test]
fn matching_ignores_case_and_punctuation() {
    let a = profile_for("game_booster pro");
    let b = profile_for("GAMEBOOSTERPRO");
    assert_eq!(a.id, b.id);
    assert_eq!(a.id, "game_booster_pro");
}

#[test]
fn normalize_keeps_lower_ascii_alphanumerics() {
    assert_eq!(normalize("FPS Optimizer-X 2!").into_iter().collect::<String>(), "fpsoptimizerx2");
    assert_eq!(normalize("ไทย").len(), 0);
}

#[test]
fn catalogue_has_six_profiles_with_steps() {
    let all = program_profiles();
    assert_eq!(all.len(), 6);
    let warface = &all[3];
    assert_eq!(warface.launch_steps.len(), 2);
    assert_eq!(warface.launch_steps[1].args, vec!["--silent"]);
    assert_eq!(all[5].launch_steps[0].args, vec!["--mode", "ranked"]);
}

#[test]
fn each_match_name_finds_its_profile() {
    for p in program_profiles() {
        for name in &p.match_names {
            assert!(p.matches(name));
        }
    }
}

#[test]
fn every_catalogue_name_selects_its_own_profile() {
    for profile in program_profiles() {
        for name in &profile.match_names {
            assert_eq!(profile_for(name).id, profile.id, "match name {name}");
        }
    }
}
