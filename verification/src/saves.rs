//! Save files: finding them by name, reading the parties out of them, and
//! trading one party member for another.

use crate::errors::{AppError, Result};
use crate::ui::lines::{chars_of, copy_range, string_from_chars};
use pkmn_savedata::core_types::gba::PokemonSpecies3;
use pkmn_savedata::core_types::PokemonSpecies;
use pkmn_savedata::gba::{GbaSave, Pkm3Party};
use pkmn_savedata::SaveError;
use vstd::prelude::*;
use vstd::string::*;

verus! {

/// The ending of the name of a save file.
pub const EXT_SAVEFILE: &'static str = ".sav";

/// A save file of the save-data crate. Verus sees nothing inside it.
#[verifier::external_type_specification]
#[verifier::external_body]
pub struct ExGbaSave(GbaSave);

/// A party member of the save-data crate. Verus sees nothing inside it.
#[verifier::external_type_specification]
#[verifier::external_body]
pub struct ExPkm3Party(Pkm3Party);

/// The party of a save file: the members that the save-data crate's
/// `party_iter` yields, in its order, each as its bytes.
pub uninterp spec fn party(save: GbaSave) -> Seq<Seq<u8>>;

/// The number of party members that a save file says it holds. A party has
/// six places; a damaged file may say more.
pub uninterp spec fn stored_count(save: GbaSave) -> nat;

/// The name of the trainer of a save file, as the save-data crate decodes
/// it.
pub uninterp spec fn trainer_text(save: GbaSave) -> Seq<char>;

/// The bytes of a party member.
pub uninterp spec fn member_bytes(member: Pkm3Party) -> Seq<u8>;

/// The species of the party member of the given bytes, as its index in the
/// game, where the save-data crate finds one.
pub uninterp spec fn species_index(member: Seq<u8>) -> Option<u16>;

/// The national number of the species of the given index in the game, where
/// the save-data crate knows one.
pub uninterp spec fn national_of(index: u16) -> Option<u16>;

/// The name that the save-data crate gives the species of the given
/// national number.
pub uninterp spec fn species_text(number: u16) -> Seq<char>;

/// Where in the bytes of a party member the mail that it carries is noted.
pub const MAIL_AT: usize = 85;

/// What is noted for a member that carries no mail.
pub const NO_MAIL: u8 = 0xFF;

/// What is noted of the mail of the party member of the given bytes.
pub open spec fn mail_of(member: Seq<u8>) -> u8 {
    member[MAIL_AT as int]
}

/// What is known of the species of a party member.
pub enum SpeciesLookup {
    /// The member has no species.
    Missing,
    /// The member's species has no national number.
    Foreign,
    /// The national number of the member's species.
    Known(u16),
}

/// What is known of the name of a party member.
pub enum NameLookup {
    /// The member has no species.
    Missing,
    /// The member's species has no national number.
    Foreign,
    /// The name of the member's species.
    Named(String),
}

/// What is known of the species of the party member of the given bytes.
pub open spec fn lookup_of(member: Seq<u8>) -> SpeciesLookup {
    match species_index(member) {
        None => SpeciesLookup::Missing,
        Some(index) => match national_of(index) {
            None => SpeciesLookup::Foreign,
            Some(number) => SpeciesLookup::Known(number),
        },
    }
}

/// `GameState::trainer_name` and `Str3::decode`: the name of the trainer of a
/// save file, as text.
#[verifier::external_body]
pub fn trainer_name(save: &GbaSave) -> (name: String)
    ensures
        name@ == trainer_text(*save),
{
    save.game_state().trainer_name().decode(true)
}

/// `GameState::party_iter` and `nth`: the party member at `index`, where the
/// party has that many members. A party has six members at most.
#[verifier::external_body]
fn party_member(save: &GbaSave, index: usize) -> (member: Option<Pkm3Party>)
    ensures
        member is Some <==> index < party(*save).len(),
        member is Some ==> index < 6,
        member matches Some(m) ==> member_bytes(m) == party(*save)[index as int],
{
    save.game_state().party_iter().nth(index).cloned()
}

/// `GameState::party_remove`: takes the member at `target` out of the party;
/// the members behind it move up. It succeeds exactly where the party has a
/// member there that carries no mail; on failure the party is as it was.
#[verifier::external_body]
fn party_remove(save: &mut GbaSave, target: u32) -> (removed: core::result::Result<(), SaveError>)
    ensures
        removed is Ok <==> target < party(*old(save)).len() && mail_of(
            party(*old(save))[target as int],
        ) == NO_MAIL,
        removed is Err ==> party(*final(save)) == party(*old(save)) && stored_count(*final(save))
            == stored_count(*old(save)),
        removed is Ok ==> stored_count(*final(save)) + 1 == stored_count(*old(save)),
        removed is Ok && stored_count(*old(save)) <= 6 ==> party(*final(save)) == party(
            *old(save),
        ).remove(target as int),
{
    save.game_state_mut().party_remove(target).map(|_| ())
}

/// `GameState::party_append`: puts `member` behind the last member of the
/// party. It succeeds exactly where fewer than six members are stored; on
/// failure the party is as it was.
#[verifier::external_body]
fn party_append(save: &mut GbaSave, member: &Pkm3Party) -> (appended: core::result::Result<
    (),
    SaveError,
>)
    ensures
        appended is Ok <==> stored_count(*old(save)) < 6,
        appended is Ok ==> party(*final(save)) == party(*old(save)).push(member_bytes(*member))
            && stored_count(*final(save)) == stored_count(*old(save)) + 1,
        appended is Err ==> party(*final(save)) == party(*old(save)) && stored_count(*final(save))
            == stored_count(*old(save)),
{
    save.game_state_mut().party_append(member)
}

/// `PokemonSpecies::new` and `GameState::set_pokedex_species`: marks the
/// species of the national number `number` as seen and owned. The party is as
/// it was.
#[verifier::external_body]
fn record_species(save: &mut GbaSave, number: u16)
    ensures
        party(*final(save)) == party(*old(save)),
        stored_count(*final(save)) == stored_count(*old(save)),
{
    if let Some(species) = PokemonSpecies::new(number) {
        save.game_state_mut().set_pokedex_species(species);
    }
}

/// `Pkm3Party::decode` and `Pkm3Decoded::species`: the species of `member`
/// as its index in the game, where it has one.
#[verifier::external_body]
fn member_species(member: &Pkm3Party) -> (index: Option<u16>)
    ensures
        index == species_index(member_bytes(*member)),
{
    match member.decode().species() {
        Some(species) => Some(species.get()),
        None => None,
    }
}

/// `PokemonSpecies3::new` and `PokemonSpecies::try_from`: the national number
/// of the species of the index `index` in the game, where it has one.
#[verifier::external_body]
fn national_number(index: u16) -> (number: Option<u16>)
    ensures
        number == national_of(index),
{
    let species = PokemonSpecies3::new(index)?;
    let national = PokemonSpecies::try_from(species).ok()?;
    Some(national.get())
}

/// `PokemonSpecies::new` and `PokemonSpecies`'s `to_string`: the name of the
/// species of the national number `number`; no text where there is no such
/// number.
#[verifier::external_body]
fn species_name(number: u16) -> (name: String)
    ensures
        name@ == species_text(number),
{
    match PokemonSpecies::new(number) {
        Some(species) => species.to_string(),
        None => String::new(),
    }
}

/// Looks up the species of `member`.
fn species_of(member: &Pkm3Party) -> (lookup: SpeciesLookup)
    ensures
        lookup == lookup_of(member_bytes(*member)),
{
    match member_species(member) {
        None => SpeciesLookup::Missing,
        Some(index) => match national_number(index) {
            None => SpeciesLookup::Foreign,
            Some(number) => SpeciesLookup::Known(number),
        },
    }
}

/// `s` ends with `suffix`.
pub open spec fn has_suffix(s: Seq<char>, suffix: Seq<char>) -> bool {
    s.len() >= suffix.len() && s.skip(s.len() - suffix.len()) == suffix
}

/// The name of a save file is one that ends in `.sav`.
pub open spec fn is_save_name(name: Seq<char>) -> bool {
    has_suffix(name, EXT_SAVEFILE@)
}

/// The index of the first character of the last component of a path: the
/// first behind its last `/`.
pub open spec fn component_start(path: Seq<char>) -> int
    decreases path.len(),
{
    if path.len() == 0 {
        0
    } else if path.last() == '/' {
        path.len() as int
    } else {
        component_start(path.drop_last())
    }
}

/// The base name of a path: its last component, without `.sav` at its end.
pub open spec fn base_name(path: Seq<char>) -> Seq<char> {
    let file = path.skip(component_start(path));
    if has_suffix(file, EXT_SAVEFILE@) {
        file.take(file.len() - EXT_SAVEFILE@.len())
    } else {
        file
    }
}

/// The number of save-file names among the first `k` of `files`.
pub open spec fn count_saves(files: Seq<String>, k: int) -> int
    decreases k,
{
    if k <= 0 {
        0
    } else {
        count_saves(files, k - 1) + if is_save_name(files[k - 1]@) {
            1int
        } else {
            0int
        }
    }
}

/// `i` and `j` are the places of the first two save-file names in `files`.
pub open spec fn first_two(files: Seq<String>, i: int, j: int) -> bool {
    &&& 0 <= i < j < files.len()
    &&& is_save_name(files[i]@)
    &&& is_save_name(files[j]@)
    &&& forall|k: int| 0 <= k < j && k != i ==> !is_save_name(#[trigger] files[k]@)
}

/// The path of the file `file` in the directory `dir`.
pub open spec fn joined(dir: Seq<char>, file: Seq<char>) -> Seq<char> {
    dir + seq!['/'] + file
}

/// The path of the save file `name` in the directory `dir`.
pub open spec fn save_path(dir: Seq<char>, name: Seq<char>) -> Seq<char> {
    joined(dir, name + EXT_SAVEFILE@)
}

/// The start found by scanning from the front is `component_start`.
proof fn lemma_component_start_is(path: Seq<char>, start: int)
    requires
        0 <= start <= path.len(),
        start > 0 ==> path[start - 1] == '/',
        forall|k: int| start <= k < path.len() ==> path[k] != '/',
    ensures
        component_start(path) == start,
    decreases path.len(),
{
    if path.len() > 0 {
        if path.last() == '/' {
            assert(start == path.len());
        } else {
            let front = path.drop_last();
            assert(start < path.len()) by {
                if start == path.len() {
                    assert(path[start - 1] == '/');
                }
            }
            lemma_component_start_is(front, start);
        }
    }
}

/// Tells whether `chars` ends with `suffix`.
pub fn ends_with(chars: &Vec<char>, suffix: &Vec<char>) -> (b: bool)
    ensures
        b == has_suffix(chars@, suffix@),
{
    let n = chars.len();
    let m = suffix.len();
    if n < m {
        return false;
    }
    let mut i: usize = 0;
    while i < m
        invariant
            m <= n,
            n == chars@.len(),
            m == suffix@.len(),
            i <= m,
            forall|k: int| 0 <= k < i ==> chars@[n - m + k] == suffix@[k],
        decreases m - i,
    {
        if chars[n - m + i] != suffix[i] {
            assert(chars@.skip(n - m)[i as int] != suffix@[i as int]);
            return false;
        }
        i = i + 1;
    }
    assert(chars@.skip(n - m) =~= suffix@);
    true
}

/// Tells whether `name` is the name of a save file.
pub fn is_save_file(name: &str) -> (b: bool)
    ensures
        b == is_save_name(name@),
{
    let chars = chars_of(name);
    let suffix = chars_of(EXT_SAVEFILE);
    ends_with(&chars, &suffix)
}

/// Returns the base name of `full_path`: its last component, without `.sav`
/// at its end.
pub fn get_file_basename(full_path: &str) -> (name: String)
    ensures
        name@ == base_name(full_path@),
{
    let chars = chars_of(full_path);
    let n = chars.len();
    let mut start: usize = 0;
    let mut i: usize = 0;
    while i < n
        invariant
            n == chars@.len(),
            start <= i <= n,
            start > 0 ==> chars@[start - 1] == '/',
            forall|k: int| start <= k < i ==> chars@[k] != '/',
        decreases n - i,
    {
        if chars[i] == '/' {
            start = i + 1;
        }
        i = i + 1;
    }
    proof {
        lemma_component_start_is(chars@, start as int);
    }
    let file = copy_range(&chars, start, n);
    assert(file@ =~= chars@.skip(start as int));
    let suffix = chars_of(EXT_SAVEFILE);
    if ends_with(&file, &suffix) {
        let stem = copy_range(&file, 0, file.len() - suffix.len());
        assert(stem@ =~= file@.take(file@.len() - suffix@.len()));
        string_from_chars(&stem)
    } else {
        string_from_chars(&file)
    }
}

/// Returns the base names of the first two save files among `files`, or
/// `MissingFiles` where there are fewer than two.
pub fn find_first_two_sav_tns(files: &Vec<String>) -> (found: Result<(String, String)>)
    ensures
        found is Ok <==> count_saves(files@, files@.len() as int) >= 2,
        found matches Ok(names) ==> exists|i: int, j: int|
            first_two(files@, i, j) && names.0@ == base_name(files@[i]@) && names.1@ == base_name(
                files@[j]@,
            ),
        found matches Err(error) ==> error is MissingFiles,
{
    let n = files.len();
    let mut first: Option<usize> = None;
    let mut k: usize = 0;
    while k < n
        invariant
            n == files@.len(),
            k <= n,
            first matches Some(i) ==> i < k && is_save_name(files@[i as int]@) && count_saves(
                files@,
                k as int,
            ) == 1 && forall|m: int| 0 <= m < k && m != i ==> !is_save_name(#[trigger] files@[m]@),
            first is None ==> count_saves(files@, k as int) == 0 && forall|m: int|
                0 <= m < k ==> !is_save_name(#[trigger] files@[m]@),
        decreases n - k,
    {
        if is_save_file(files[k].as_str()) {
            match first {
                Some(i) => {
                    let one = get_file_basename(files[i].as_str());
                    let two = get_file_basename(files[k].as_str());
                    proof {
                        assert(first_two(files@, i as int, k as int));
                        lemma_count_grows(files@, k as int + 1, n as int);
                    }
                    return Ok((one, two));
                },
                None => {
                    first = Some(k);
                },
            }
        }
        k = k + 1;
    }
    Err(AppError::MissingFiles)
}

/// The count of save-file names among the first `k` files does not shrink
/// as `k` grows.
pub proof fn lemma_count_grows(files: Seq<String>, j: int, k: int)
    requires
        j <= k,
    ensures
        count_saves(files, j) <= count_saves(files, k),
    decreases k - j,
{
    if j < k {
        lemma_count_grows(files, j, k - 1);
    }
}

/// Returns the path of the file `filename_with_ext` in the directory
/// `base_dir`: the two joined by a `/`.
pub fn path_join(base_dir: &str, filename_with_ext: &str) -> (path: String)
    ensures
        path@ == joined(base_dir@, filename_with_ext@),
{
    let mut path = String::from_str(base_dir);
    path.append("/");
    path.append(filename_with_ext);
    proof {
        reveal_strlit("/");
        assert("/"@ =~= seq!['/']);
    }
    path
}

/// Returns the path of the save file `name` in the directory `dir`.
pub fn save_file_path(dir: &str, name: &str) -> (path: String)
    ensures
        path@ == save_path(dir@, name@),
{
    let mut file = String::from_str(name);
    file.append(EXT_SAVEFILE);
    path_join(dir, file.as_str())
}

/// The first `k` of `lookups` all hold a name.
pub open spec fn names_upto(lookups: Seq<NameLookup>, k: int) -> bool {
    forall|i: int| 0 <= i < k ==> (#[trigger] lookups[i]) is Named
}

/// The words for a member without species.
pub open spec fn missing_species_text() -> Seq<char> {
    "Pokemon has unknown species (code 1)."@
}

/// The words for a member whose species has no national number.
pub open spec fn foreign_species_text() -> Seq<char> {
    "Pokemon has unknown species (code 2)."@
}

/// Returns the names that `lookups` hold, in their order; or, where a lookup
/// holds none, the failure that the first such lookup stands for.
pub fn names_of(lookups: Vec<NameLookup>) -> (names: Result<Vec<String>>)
    ensures
        names is Ok <==> names_upto(lookups@, lookups@.len() as int),
        names matches Ok(list) ==> list@.len() == lookups@.len() && forall|i: int|
            0 <= i < list@.len() ==> (#[trigger] list@[i]) == lookups@[i]->Named_0,
        names matches Err(error) ==> exists|k: int|
            0 <= k < lookups@.len() && names_upto(lookups@, k) && match lookups@[k] {
                NameLookup::Missing => error matches AppError::Custom(text) && text@
                    == missing_species_text(),
                NameLookup::Foreign => error matches AppError::Custom(text) && text@
                    == foreign_species_text(),
                NameLookup::Named(_) => false,
            },
{
    let mut list: Vec<String> = Vec::new();
    let ghost all = lookups@;
    for lookup in it: lookups
        invariant
            it.seq() == all,
            list@.len() == it.index(),
            names_upto(all, it.index()),
            forall|i: int| 0 <= i < list@.len() ==> (#[trigger] list@[i]) == all[i]->Named_0,
    {
        match lookup {
            NameLookup::Missing => {
                return Err(
                    AppError::Custom(String::from_str("Pokemon has unknown species (code 1).")),
                );
            },
            NameLookup::Foreign => {
                return Err(
                    AppError::Custom(String::from_str("Pokemon has unknown species (code 2).")),
                );
            },
            NameLookup::Named(name) => {
                list.push(name);
            },
        }
    }
    Ok(list)
}

/// `lookup` is what is known of the name of the party member of the given
/// bytes: the name of its species, or why it has none.
pub open spec fn names_member(lookup: NameLookup, member: Seq<u8>) -> bool {
    match lookup_of(member) {
        SpeciesLookup::Missing => lookup is Missing,
        SpeciesLookup::Foreign => lookup is Foreign,
        SpeciesLookup::Known(number) => lookup matches NameLookup::Named(name) && name@
            == species_text(number),
    }
}

/// Looks up the name of each member of the party of `save`.
pub fn party_lookups(save: &GbaSave) -> (lookups: Vec<NameLookup>)
    ensures
        lookups@.len() == party(*save).len(),
        forall|i: int|
            0 <= i < lookups@.len() ==> names_member(#[trigger] lookups@[i], party(*save)[i]),
{
    let mut lookups: Vec<NameLookup> = Vec::new();
    let mut index: usize = 0;
    loop
        invariant
            index == lookups@.len(),
            index <= party(*save).len(),
            forall|i: int|
                0 <= i < lookups@.len() ==> names_member(#[trigger] lookups@[i], party(*save)[i]),
        ensures
            lookups@.len() == party(*save).len(),
            forall|i: int|
                0 <= i < lookups@.len() ==> names_member(#[trigger] lookups@[i], party(*save)[i]),
        decreases party(*save).len() - index,
    {
        match party_member(save, index) {
            Some(member) => {
                let lookup = match species_of(&member) {
                    SpeciesLookup::Missing => NameLookup::Missing,
                    SpeciesLookup::Foreign => NameLookup::Foreign,
                    SpeciesLookup::Known(number) => NameLookup::Named(species_name(number)),
                };
                let ghost before = lookups@;
                lookups.push(lookup);
                assert forall|i: int| 0 <= i < lookups@.len() implies names_member(
                    #[trigger] lookups@[i],
                    party(*save)[i],
                ) by {
                    if i < before.len() {
                        assert(lookups@[i] == before[i]);
                    }
                }
                index = index + 1;
            },
            None => {
                break ;
            },
        }
    }
    lookups
}

/// The species of every one of the first `k` members of `members` is known.
pub open spec fn known_upto(members: Seq<Seq<u8>>, k: int) -> bool {
    forall|i: int| 0 <= i < k ==> lookup_of(#[trigger] members[i]) is Known
}

/// Returns the names of the species of the party of `save`, in its order;
/// or, where the species of a member is not known, the failure that the
/// first such member stands for.
pub fn party_names(save: &GbaSave) -> (names: Result<Vec<String>>)
    ensures
        names is Ok <==> known_upto(party(*save), party(*save).len() as int),
        names matches Ok(list) ==> list@.len() == party(*save).len() && forall|i: int|
            0 <= i < list@.len() ==> (#[trigger] list@[i])@ == species_text(
                lookup_of(party(*save)[i])->Known_0,
            ),
        names matches Err(error) ==> exists|k: int|
            0 <= k < party(*save).len() && known_upto(party(*save), k) && match lookup_of(
                party(*save)[k],
            ) {
                SpeciesLookup::Missing => error matches AppError::Custom(text) && text@
                    == missing_species_text(),
                SpeciesLookup::Foreign => error matches AppError::Custom(text) && text@
                    == foreign_species_text(),
                SpeciesLookup::Known(_) => false,
            },
{
    let lookups = party_lookups(save);
    let ghost looked = lookups@;
    let names = names_of(lookups);
    proof {
        let members = party(*save);
        assert forall|k: int| 0 <= k <= looked.len() implies (names_upto(looked, k) <==> known_upto(
            members,
            k,
        )) by {
            if names_upto(looked, k) {
                assert forall|i: int| 0 <= i < k implies lookup_of(#[trigger] members[i])
                    is Known by {
                    assert(names_member(looked[i], members[i]));
                    assert(looked[i] is Named);
                }
            }
            if known_upto(members, k) {
                assert forall|i: int| 0 <= i < k implies (#[trigger] looked[i]) is Named by {
                    assert(names_member(looked[i], members[i]));
                    assert(lookup_of(members[i]) is Known);
                }
            }
        }
        if names is Ok {
            let list = names->Ok_0;
            assert forall|i: int| 0 <= i < list@.len() implies (#[trigger] list@[i])@
                == species_text(lookup_of(members[i])->Known_0) by {
                assert(names_member(looked[i], members[i]));
                assert(looked[i] is Named);
            }
        } else {
            let error = names->Err_0;
            let k = choose|k: int|
                0 <= k < looked.len() && names_upto(looked, k) && match looked[k] {
                    NameLookup::Missing => error matches AppError::Custom(text) && text@
                        == missing_species_text(),
                    NameLookup::Foreign => error matches AppError::Custom(text) && text@
                        == foreign_species_text(),
                    NameLookup::Named(_) => false,
                };
            assert(names_member(looked[k], members[k]));
            assert(known_upto(members, k));
        }
    }
    names
}

/// How a trade ends.
#[derive(Clone, Copy, Debug, PartialEq, Eq, Structural)]
pub enum TradeEnd {
    /// Both members changed parties.
    Done,
    /// A party has no member at the given place.
    NotFound,
    /// The save-data crate refused to take a member out of its party or to
    /// put one in.
    Refused,
    /// The member that came from the second party has no species.
    SecondMissing,
    /// The species of the member that came from the second party has no
    /// national number.
    SecondForeign,
    /// The member that came from the first party has no species.
    FirstMissing,
    /// The species of the member that came from the first party has no
    /// national number.
    FirstForeign,
}

/// How the trade of member `place1` of `save1` for member `place2` of
/// `save2` ends.
///
/// It is not found where either party has no member at its place. It is
/// refused where a member carries mail or where a damaged file says that a
/// party holds more than six members. The member from the second party is
/// entered into the Pokédex of the first before the member from the first
/// joins the second party, so what is wrong with the second member is
/// found first.
pub open spec fn trade_end(save1: GbaSave, save2: GbaSave, place1: usize, place2: usize)
    -> TradeEnd {
    let first = party(save1)[place1 as int];
    let second = party(save2)[place2 as int];
    if place1 >= party(save1).len() || place2 >= party(save2).len() {
        TradeEnd::NotFound
    } else if mail_of(first) != NO_MAIL || mail_of(second) != NO_MAIL || stored_count(save1) > 6 {
        TradeEnd::Refused
    } else if lookup_of(second) is Missing {
        TradeEnd::SecondMissing
    } else if lookup_of(second) is Foreign {
        TradeEnd::SecondForeign
    } else if stored_count(save2) > 6 {
        TradeEnd::Refused
    } else if lookup_of(first) is Missing {
        TradeEnd::FirstMissing
    } else if lookup_of(first) is Foreign {
        TradeEnd::FirstForeign
    } else {
        TradeEnd::Done
    }
}

/// The trade fails before anything is changed: a party has no member at its
/// place, or the member of the first party carries mail.
pub open spec fn leaves_untouched(save1: GbaSave, save2: GbaSave, place1: usize, place2: usize)
    -> bool {
    trade_end(save1, save2, place1, place2) is NotFound || mail_of(party(save1)[place1 as int])
        != NO_MAIL
}

/// `done` is the result that stands for `end`.
pub open spec fn ends_as(done: Result<()>, end: TradeEnd) -> bool {
    match end {
        TradeEnd::Done => done is Ok,
        TradeEnd::NotFound => done matches Err(error) && error is PokemonNotFound,
        TradeEnd::Refused => done matches Err(error) && error is SaveError,
        TradeEnd::SecondMissing => done matches Err(AppError::Custom(text)) && text@
            == "Pokemon 2 couln't be added to the Pokedex of 1 (code 1)."@,
        TradeEnd::SecondForeign => done matches Err(AppError::Custom(text)) && text@
            == "Pokemon 2 couln't be added to the Pokedex of 1 (code 2)."@,
        TradeEnd::FirstMissing => done matches Err(AppError::Custom(text)) && text@
            == "Pokemon 1 couln't be added to the Pokedex of 2 (code 1)."@,
        TradeEnd::FirstForeign => done matches Err(AppError::Custom(text)) && text@
            == "Pokemon 1 couln't be added to the Pokedex of 2 (code 2)."@,
    }
}

/// What `lookup` gives for a trade: the national number of the species, or
/// the failure that says that the member could not be entered into the other
/// trainer's Pokédex.
pub fn species_for_trade(lookup: SpeciesLookup, missing: &str, foreign: &str) -> (species: Result<
    u16,
>)
    ensures
        match lookup {
            SpeciesLookup::Missing => species matches Err(AppError::Custom(text)) && text@
                == missing@,
            SpeciesLookup::Foreign => species matches Err(AppError::Custom(text)) && text@
                == foreign@,
            SpeciesLookup::Known(known) => species == Ok::<u16, AppError>(known),
        },
{
    match lookup {
        SpeciesLookup::Missing => Err(AppError::Custom(String::from_str(missing))),
        SpeciesLookup::Foreign => Err(AppError::Custom(String::from_str(foreign))),
        SpeciesLookup::Known(known) => Ok(known),
    }
}

/// The party once the member at `out` left it and `member` joined it at the
/// end.
pub open spec fn traded(before: Seq<Seq<u8>>, out: int, member: Seq<u8>) -> Seq<Seq<u8>> {
    before.remove(out).push(member)
}

/// Trades member `pokemon1` of the party of `save1` for member `pokemon2` of
/// the party of `save2`: each leaves its party and joins the other at the
/// end, and is entered into the Pokédex of its new trainer.
///
/// The trade ends as `trade_end` says. Where it is done, the two parties are
/// the traded ones. Where a party has no member at the given place, or the
/// member of the first party carries mail, nothing is changed. Another
/// failure may leave the parties partly changed.
pub fn trade_pokemon(
    save1: &mut GbaSave,
    save2: &mut GbaSave,
    pokemon1: usize,
    pokemon2: usize,
) -> (done: Result<()>)
    ensures
        ends_as(done, trade_end(*old(save1), *old(save2), pokemon1, pokemon2)),
        done is Ok ==> party(*final(save1)) == traded(
            party(*old(save1)),
            pokemon1 as int,
            party(*old(save2))[pokemon2 as int],
        ) && party(*final(save2)) == traded(
            party(*old(save2)),
            pokemon2 as int,
            party(*old(save1))[pokemon1 as int],
        ),
        leaves_untouched(*old(save1), *old(save2), pokemon1, pokemon2) ==> party(*final(save1))
            == party(*old(save1)) && party(*final(save2)) == party(*old(save2)),
{
    let member1 = match party_member(save1, pokemon1) {
        Some(member) => member,
        None => {
            return Err(AppError::PokemonNotFound);
        },
    };
    let member2 = match party_member(save2, pokemon2) {
        Some(member) => member,
        None => {
            return Err(AppError::PokemonNotFound);
        },
    };
    match party_remove(save1, pokemon1 as u32) {
        Ok(()) => {},
        Err(error) => {
            return Err(AppError::SaveError(error));
        },
    }
    match party_remove(save2, pokemon2 as u32) {
        Ok(()) => {},
        Err(error) => {
            return Err(AppError::SaveError(error));
        },
    }
    match party_append(save1, &member2) {
        Ok(()) => {},
        Err(error) => {
            return Err(AppError::SaveError(error));
        },
    }
    let species2 = match species_for_trade(
        species_of(&member2),
        "Pokemon 2 couln't be added to the Pokedex of 1 (code 1).",
        "Pokemon 2 couln't be added to the Pokedex of 1 (code 2).",
    ) {
        Ok(species) => species,
        Err(error) => {
            return Err(error);
        },
    };
    record_species(save1, species2);
    match party_append(save2, &member1) {
        Ok(()) => {},
        Err(error) => {
            return Err(AppError::SaveError(error));
        },
    }
    let species1 = match species_for_trade(
        species_of(&member1),
        "Pokemon 1 couln't be added to the Pokedex of 2 (code 1).",
        "Pokemon 1 couln't be added to the Pokedex of 2 (code 2).",
    ) {
        Ok(species) => species,
        Err(error) => {
            return Err(error);
        },
    };
    record_species(save2, species1);
    Ok(())
}

} // verus!
