//! What storage is handed: the values of a row, in the order of its columns.

use crate::characters::{class_id, Character, CharacterView};
use vstd::prelude::*;

verus! {

/// The number under which storage keeps a user. Storage has signed numbers
/// only, so the unsigned number is read as the signed one with the same 64
/// bits.
pub open spec fn stored_id(user_id: u64) -> int {
    if user_id <= i64::MAX {
        user_id as int
    } else {
        user_id - 0x1_0000_0000_0000_0000
    }
}

/// The number under which storage keeps `user_id`.
pub fn storage_user_id(user_id: u64) -> (stored: i64)
    ensures
        stored == stored_id(user_id),
{
    if user_id <= 0x7FFF_FFFF_FFFF_FFFFu64 {
        user_id as i64
    } else {
        let below = (user_id - 0x8000_0000_0000_0000u64) as i64;
        below + i64::MIN
    }
}

/// The values of the two rows that make a character in storage: the row of
/// the character, and the row that links it to its class.
#[derive(Clone, Debug, PartialEq, Eq)]
pub struct CharacterRows {
    /// The owner, then the ten texts in the order of the columns.
    pub owner: i64,
    pub texts: Vec<String>,
    pub class_id: u8,
}

/// The texts of a character in the order of the columns of its row.
pub open spec fn row_texts(character: CharacterView) -> Seq<Seq<char>> {
    seq![
        character.name,
        character.species,
        character.alignment,
        character.likes,
        character.dislike,
        character.motivations,
        character.companions,
        character.backstory,
        character.appearance,
        character.extras,
    ]
}

/// The values that storage is handed for the character `character_in` of
/// `user_id`.
pub fn character_rows(user_id: u64, character_in: Character) -> (rows: CharacterRows)
    ensures
        rows.owner == stored_id(user_id),
        rows.texts@.map_values(|text: String| text@) == row_texts(character_in@),
        rows.class_id == class_id(character_in.class),
{
    let class_id = character_in.class.id();
    let mut texts: Vec<String> = Vec::new();
    texts.push(character_in.name);
    texts.push(character_in.species);
    texts.push(character_in.alignment);
    texts.push(character_in.likes);
    texts.push(character_in.dislike);
    texts.push(character_in.motivations);
    texts.push(character_in.companions);
    texts.push(character_in.backstory);
    texts.push(character_in.appearance);
    texts.push(character_in.extras);
    assert(texts@.map_values(|text: String| text@) =~= row_texts(character_in@));
    CharacterRows { owner: storage_user_id(user_id), texts, class_id }
}

} // verus!
