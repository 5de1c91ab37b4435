use ntrade_advance::errors::AppError;
use ntrade_advance::saves::{
    ends_with, find_first_two_sav_tns, get_file_basename, is_save_file, names_of, party_lookups,
    party_names, path_join, save_file_path, species_for_trade, trade_pokemon, trainer_name, NameLookup,
    SpeciesLookup, EXT_SAVEFILE,
};
use pkmn_savedata::core_types::PokemonSpecies;
use pkmn_savedata::gba::{GbaSave, LanguageGBA};

const SECTION: usize = 0x1000;
const PARTY_AT: usize = 0x234;
const MEMBER: usize = 100;

/// One party member as (species index, mail id).
fn save_with(party: &[(u16, u8)], name: &[u8]) -> GbaSave {
    let mut file = vec![0xffu8; 0x20000];
    for section in 0..14usize {
        let at = section * SECTION;
        for byte in &mut file[at..at + SECTION] {
            *byte = 0;
        }
        if section == 0 {
            file[at..at + name.len()].copy_from_slice(name);
        }
        if section == 1 {
            let base = at + PARTY_AT;
            file[base..base + 4].copy_from_slice(&(party.len() as u32).to_le_bytes());
            for (k, (species, mail)) in party.iter().enumerate() {
                let member = base + 4 + k * MEMBER;
                file[member + 32..member + 34].copy_from_slice(&species.to_le_bytes());
                file[member + 84] = 5;
                file[member + 85] = *mail;
            }
        }
        let mut sum = 0u32;
        for word in file[at..at + 0xff0].chunks_exact(4) {
            sum = sum.wrapping_add(u32::from_le_bytes([word[0], word[1], word[2], word[3]]));
        }
        let checksum = ((sum & 0xffff).wrapping_add(sum >> 16) & 0xffff) as u16;
        let footer = at + 0xff0;
        file[footer + 4..footer + 6].copy_from_slice(&(section as u16).to_le_bytes());
        file[footer + 6..footer + 8].copy_from_slice(&checksum.to_le_bytes());
        file[footer + 8..footer + 12].copy_from_slice(&0x08012025u32.to_le_bytes());
        file[footer + 12..footer + 16].copy_from_slice(&1u32.to_le_bytes());
    }
    GbaSave::from_bytes(&file, LanguageGBA::English).expect("a well-formed save file")
}

fn plain(party: &[u16]) -> GbaSave {
    let members: Vec<(u16, u8)> = party.iter().map(|s| (*s, 0xff)).collect();
    save_with(&members, &[0xbb, 0xcd, 0xc2, 0xff])
}

fn species_of_party(save: &GbaSave) -> Vec<u16> {
    save.game_state()
        .party_iter()
        .map(|member| member.decode().species().map(|s| u16::from(s)).unwrap_or(0))
        .collect()
}

fn strings(items: &[&str]) -> Vec<String> {
    items.iter().map(|s| s.to_string()).collect()
}

#[test]
fn save_names_end_in_the_extension() {
    assert_eq!(EXT_SAVEFILE, ".sav");
    assert!(is_save_file("emerald.sav"));
    assert!(is_save_file(".sav"));
    assert!(!is_save_file("emerald.sav.bak"));
    assert!(!is_save_file("sav"));
    assert!(!is_save_file(""));
    assert!(ends_with(&vec!['a', 'b', 'c'], &vec!['b', 'c']));
    assert!(ends_with(&vec!['a', 'b', 'c'], &vec![]));
    assert!(!ends_with(&vec!['a', 'b', 'c'], &vec!['a', 'b']));
    assert!(!ends_with(&vec!['c'], &vec!['b', 'c']));
}

#[test]
fn base_name_is_the_last_component_without_extension() {
    assert_eq!(get_file_basename("/home/me/emerald.sav"), "emerald");
    assert_eq!(get_file_basename("ruby.sav"), "ruby");
    assert_eq!(get_file_basename("/home/me/notes.txt"), "notes.txt");
    assert_eq!(get_file_basename("/home/me/"), "");
    assert_eq!(get_file_basename("a.b.sav"), "a.b");
    assert_eq!(get_file_basename("dir.sav/file"), "file");
    assert_eq!(get_file_basename(""), "");
}

#[test]
fn first_two_save_files_are_found_in_order() {
    let files = strings(&["/h/a.txt", "/h/ruby.sav", "/h/b", "/h/emerald.sav", "/h/third.sav"]);
    match find_first_two_sav_tns(&files) {
        Ok((one, two)) => {
            assert_eq!(one, "ruby");
            assert_eq!(two, "emerald");
        }
        Err(_) => panic!("two save files are there"),
    }
}

#[test]
fn fewer_than_two_save_files_are_missing_files() {
    assert!(matches!(find_first_two_sav_tns(&strings(&["/h/ruby.sav", "/h/b"])), Err(AppError::MissingFiles)));
    assert!(matches!(find_first_two_sav_tns(&Vec::new()), Err(AppError::MissingFiles)));
    assert!(matches!(find_first_two_sav_tns(&strings(&["a", "b", "c"])), Err(AppError::MissingFiles)));
}

#[test]
fn save_file_path_joins_directory_name_and_extension() {
    assert_eq!(save_file_path("/home/me", "ruby"), "/home/me/ruby.sav");
    assert_eq!(save_file_path(".", "a"), "./a.sav");
    assert_eq!(save_file_path("", ""), "/.sav");
    assert_eq!(path_join("/home/me", "ruby.sav"), "/home/me/ruby.sav");
    assert_eq!(path_join("a/", "b"), "a//b");
}

#[test]
fn names_of_takes_names_or_the_first_failure() {
    let all = vec![NameLookup::Named("A".to_string()), NameLookup::Named("B".to_string())];
    match names_of(all) {
        Ok(names) => assert_eq!(names, strings(&["A", "B"])),
        Err(_) => panic!("every lookup has a name"),
    }
    assert!(matches!(names_of(Vec::new()), Ok(names) if names.is_empty()));
    let missing = vec![NameLookup::Named("A".to_string()), NameLookup::Missing, NameLookup::Foreign];
    match names_of(missing) {
        Err(AppError::Custom(text)) => assert_eq!(text, "Pokemon has unknown species (code 1)."),
        _ => panic!("the second lookup has no name"),
    }
    let foreign = vec![NameLookup::Foreign, NameLookup::Missing];
    match names_of(foreign) {
        Err(AppError::Custom(text)) => assert_eq!(text, "Pokemon has unknown species (code 2)."),
        _ => panic!("the first lookup has no name"),
    }
}

#[test]
fn species_for_trade_maps_lookups() {
    assert!(matches!(species_for_trade(SpeciesLookup::Known(25), "m", "f"), Ok(25)));
    assert!(matches!(species_for_trade(SpeciesLookup::Missing, "m", "f"), Err(AppError::Custom(t)) if t == "m"));
    assert!(matches!(species_for_trade(SpeciesLookup::Foreign, "m", "f"), Err(AppError::Custom(t)) if t == "f"));
}

#[test]
fn trainer_name_is_decoded() {
    assert_eq!(trainer_name(&plain(&[1])), "ASH");
    assert_eq!(trainer_name(&save_with(&[], &[0xca, 0xc3, 0xc5, 0xbb, 0xff])), "PIKA");
}

#[test]
fn party_names_are_those_of_the_species() {
    match party_names(&plain(&[1, 25, 7])) {
        Ok(names) => assert_eq!(names, strings(&["Bulbasaur", "Pikachu", "Squirtle"])),
        Err(_) => panic!("every member has a species"),
    }
    assert!(matches!(party_names(&plain(&[])), Ok(names) if names.is_empty()));
    assert_eq!(party_lookups(&plain(&[1, 25, 7, 4, 133, 150])).len(), 6);
    assert_eq!(party_lookups(&plain(&[])).len(), 0);
}

#[test]
fn party_names_fail_on_unknown_species() {
    match party_names(&plain(&[1, 0, 7])) {
        Err(AppError::Custom(text)) => assert_eq!(text, "Pokemon has unknown species (code 1)."),
        _ => panic!("the second member has no species"),
    }
    match party_names(&plain(&[1, 252])) {
        Err(AppError::Custom(text)) => assert_eq!(text, "Pokemon has unknown species (code 2)."),
        _ => panic!("the second member's species has no national number"),
    }
}

#[test]
fn trade_swaps_the_two_members() {
    let mut one = plain(&[1, 25, 7]);
    let mut two = plain(&[4, 133]);
    assert!(trade_pokemon(&mut one, &mut two, 1, 0).is_ok());
    assert_eq!(species_of_party(&one), vec![1, 7, 4]);
    assert_eq!(species_of_party(&two), vec![133, 25]);
    assert!(one.game_state().pokedex_species(PokemonSpecies::new(4).unwrap()));
    assert!(two.game_state().pokedex_species(PokemonSpecies::new(25).unwrap()));
    assert!(!one.game_state().pokedex_species(PokemonSpecies::new(25).unwrap()));
}

#[test]
fn trade_between_full_parties() {
    let mut one = plain(&[1, 2, 3, 4, 5, 6]);
    let mut two = plain(&[11, 12, 13, 14, 15, 16]);
    assert!(trade_pokemon(&mut one, &mut two, 5, 0).is_ok());
    assert_eq!(species_of_party(&one), vec![1, 2, 3, 4, 5, 11]);
    assert_eq!(species_of_party(&two), vec![12, 13, 14, 15, 16, 6]);
}

#[test]
fn trade_of_a_missing_member_changes_nothing() {
    let mut one = plain(&[1, 25, 7]);
    let mut two = plain(&[4, 133]);
    assert!(matches!(trade_pokemon(&mut one, &mut two, 3, 0), Err(AppError::PokemonNotFound)));
    assert!(matches!(trade_pokemon(&mut one, &mut two, 0, 2), Err(AppError::PokemonNotFound)));
    assert!(matches!(trade_pokemon(&mut one, &mut two, 6, 9), Err(AppError::PokemonNotFound)));
    assert!(matches!(trade_pokemon(&mut one, &mut two, usize::MAX, 0), Err(AppError::PokemonNotFound)));
    assert_eq!(species_of_party(&one), vec![1, 25, 7]);
    assert_eq!(species_of_party(&two), vec![4, 133]);
}

#[test]
fn trade_of_a_member_with_mail_is_refused() {
    let mut one = save_with(&[(1, 0xff), (25, 3)], &[0xff]);
    let mut two = plain(&[4]);
    assert!(matches!(trade_pokemon(&mut one, &mut two, 1, 0), Err(AppError::SaveError(_))));
    assert_eq!(species_of_party(&one), vec![1, 25]);
    assert_eq!(species_of_party(&two), vec![4]);
}

#[test]
fn trade_of_a_member_without_species_fails_late() {
    let mut one = plain(&[1, 25]);
    let mut two = plain(&[0]);
    match trade_pokemon(&mut one, &mut two, 0, 0) {
        Err(AppError::Custom(text)) => {
            assert_eq!(text, "Pokemon 2 couln't be added to the Pokedex of 1 (code 1).")
        }
        _ => panic!("the member of the second party has no species"),
    }
    let mut one = plain(&[252]);
    let mut two = plain(&[4]);
    match trade_pokemon(&mut one, &mut two, 0, 0) {
        Err(AppError::Custom(text)) => {
            assert_eq!(text, "Pokemon 1 couln't be added to the Pokedex of 2 (code 2).")
        }
        _ => panic!("the species of the first member has no national number"),
    }
}

#[test]
fn trade_is_refused_where_a_member_carries_mail_in_either_party() {
    let mut one = plain(&[1, 25]);
    let mut two = save_with(&[(4, 0)], &[0xff]);
    assert!(matches!(trade_pokemon(&mut one, &mut two, 0, 0), Err(AppError::SaveError(_))));
}

#[test]
fn trade_checks_the_second_member_first() {
    let mut one = plain(&[0]);
    let mut two = plain(&[252]);
    match trade_pokemon(&mut one, &mut two, 0, 0) {
        Err(AppError::Custom(text)) => {
            assert_eq!(text, "Pokemon 2 couln't be added to the Pokedex of 1 (code 2).")
        }
        _ => panic!("the species of the second member has no national number"),
    }
}

#[test]
fn party_lookups_tell_what_is_known() {
    let lookups = party_lookups(&plain(&[25, 0, 252]));
    assert!(matches!(&lookups[0], NameLookup::Named(name) if name == "Pikachu"));
    assert!(matches!(&lookups[1], NameLookup::Missing));
    assert!(matches!(&lookups[2], NameLookup::Foreign));
}
