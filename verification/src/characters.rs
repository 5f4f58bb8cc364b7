//! The finished character and the rules that turn gathered field values into
//! one.

use crate::session::Collected;
use crate::text::str_eq;
use vstd::prelude::*;
use vstd::string::*;

verus! {

/// The closed set of classes a character can have.
#[derive(Clone, Copy, Debug, PartialEq, Eq, Structural)]
pub enum CharacterClass {
    Martial,
    HalfCaster,
    Caster,
}

/// The text that stands for `class` on controls and in gathered values.
pub open spec fn class_label(class: CharacterClass) -> Seq<char> {
    match class {
        CharacterClass::Martial => "martial"@,
        CharacterClass::HalfCaster => "half-caster"@,
        CharacterClass::Caster => "caster"@,
    }
}

/// The class that `label` stands for, if it is one of the three labels.
pub open spec fn class_of_label(label: Seq<char>) -> Option<CharacterClass> {
    if label == "martial"@ {
        Some(CharacterClass::Martial)
    } else if label == "half-caster"@ {
        Some(CharacterClass::HalfCaster)
    } else if label == "caster"@ {
        Some(CharacterClass::Caster)
    } else {
        None
    }
}

/// The number under which storage knows `class`.
pub open spec fn class_id(class: CharacterClass) -> u8 {
    match class {
        CharacterClass::Martial => 1,
        CharacterClass::HalfCaster => 2,
        CharacterClass::Caster => 3,
    }
}

/// Reading a class label back gives the class it was written for.
pub proof fn lemma_class_label_round_trip(class: CharacterClass)
    ensures
        class_of_label(class_label(class)) == Some(class),
{
    reveal_strlit("martial");
    reveal_strlit("half-caster");
    reveal_strlit("caster");
    assert("martial"@.len() != "half-caster"@.len());
    assert("martial"@.len() != "caster"@.len());
    assert("half-caster"@.len() != "caster"@.len());
}

impl CharacterClass {
    /// The class that `label` names, or `None` for any other text.
    pub fn parse(label: &str) -> (class: Option<CharacterClass>)
        ensures
            class == class_of_label(label@),
    {
        if str_eq(label, "martial") {
            Some(CharacterClass::Martial)
        } else if str_eq(label, "half-caster") {
            Some(CharacterClass::HalfCaster)
        } else if str_eq(label, "caster") {
            Some(CharacterClass::Caster)
        } else {
            None
        }
    }

    /// The label of this class.
    pub fn label(&self) -> (label: &'static str)
        ensures
            label@ == class_label(*self),
    {
        match self {
            CharacterClass::Martial => "martial",
            CharacterClass::HalfCaster => "half-caster",
            CharacterClass::Caster => "caster",
        }
    }

    /// The number under which storage knows this class.
    pub fn id(&self) -> (id: u8)
        ensures
            id == class_id(*self),
    {
        match self {
            CharacterClass::Martial => 1,
            CharacterClass::HalfCaster => 2,
            CharacterClass::Caster => 3,
        }
    }
}

/// A complete character. One is made from a fully gathered draft and never
/// changed afterwards.
#[derive(Clone, Debug, PartialEq, Eq)]
pub struct Character {
    pub name: String,
    pub species: String,
    pub alignment: String,
    pub likes: String,
    pub dislike: String,
    pub motivations: String,
    pub companions: String,
    pub backstory: String,
    pub appearance: String,
    pub extras: String,
    pub class: CharacterClass,
}

/// What a character holds.
pub struct CharacterView {
    pub name: Seq<char>,
    pub species: Seq<char>,
    pub alignment: Seq<char>,
    pub likes: Seq<char>,
    pub dislike: Seq<char>,
    pub motivations: Seq<char>,
    pub companions: Seq<char>,
    pub backstory: Seq<char>,
    pub appearance: Seq<char>,
    pub extras: Seq<char>,
    pub class: CharacterClass,
}

impl View for Character {
    type V = CharacterView;

    open spec fn view(&self) -> CharacterView {
        CharacterView {
            name: self.name@,
            species: self.species@,
            alignment: self.alignment@,
            likes: self.likes@,
            dislike: self.dislike@,
            motivations: self.motivations@,
            companions: self.companions@,
            backstory: self.backstory@,
            appearance: self.appearance@,
            extras: self.extras@,
            class: self.class,
        }
    }
}

/// Why gathered values do not make a character.
#[derive(Debug, PartialEq, Eq)]
pub enum ValidationError {
    /// These storage keys hold no value, in the order of the required keys.
    MissingFields(Vec<String>),
    /// The class value is none of the three labels.
    InvalidEnumValue(String),
}

/// What a validation error holds.
pub enum ValidationErrorView {
    MissingFields(Seq<Seq<char>>),
    InvalidEnumValue(Seq<char>),
}

impl View for ValidationError {
    type V = ValidationErrorView;

    open spec fn view(&self) -> ValidationErrorView {
        match self {
            ValidationError::MissingFields(keys) => ValidationErrorView::MissingFields(
                keys@.map_values(|key: String| key@),
            ),
            ValidationError::InvalidEnumValue(value) => ValidationErrorView::InvalidEnumValue(
                value@,
            ),
        }
    }
}

/// The storage keys that a character needs, in the order in which missing
/// ones are reported.
pub open spec fn required_keys() -> Seq<Seq<char>> {
    seq![
        "name"@,
        "species"@,
        "alignment"@,
        "likes"@,
        "dislikes"@,
        "motivations"@,
        "companions"@,
        "backstory"@,
        "appearance"@,
        "extra"@,
        "class"@,
    ]
}

/// Whether `collected` holds a value under every required key.
pub open spec fn is_complete(collected: Map<Seq<char>, Seq<char>>) -> bool {
    forall|i: int| 0 <= i < required_keys().len() ==> collected.contains_key(#[trigger] required_keys()[i])
}

/// The required keys without a value in `collected`, in their order.
pub open spec fn missing_keys(collected: Map<Seq<char>, Seq<char>>) -> Seq<Seq<char>> {
    required_keys().filter(|key: Seq<char>| !collected.contains_key(key))
}

/// The character that complete values with a valid class make.
pub open spec fn character_of(
    collected: Map<Seq<char>, Seq<char>>,
    class: CharacterClass,
) -> CharacterView {
    CharacterView {
        name: collected["name"@],
        species: collected["species"@],
        alignment: collected["alignment"@],
        likes: collected["likes"@],
        dislike: collected["dislikes"@],
        motivations: collected["motivations"@],
        companions: collected["companions"@],
        backstory: collected["backstory"@],
        appearance: collected["appearance"@],
        extras: collected["extra"@],
        class,
    }
}

/// The character that `collected` makes, or why it makes none. Missing keys
/// are reported before the class is looked at.
pub open spec fn entity_of(collected: Map<Seq<char>, Seq<char>>) -> Result<
    CharacterView,
    ValidationErrorView,
> {
    if missing_keys(collected).len() > 0 {
        Err(ValidationErrorView::MissingFields(missing_keys(collected)))
    } else {
        match class_of_label(collected["class"@]) {
            Some(class) => Ok(character_of(collected, class)),
            None => Err(ValidationErrorView::InvalidEnumValue(collected["class"@])),
        }
    }
}

/// The text of the report of missing keys: each key followed by a comma and a
/// space.
pub open spec fn listed(keys: Seq<Seq<char>>) -> Seq<char>
    decreases keys.len(),
{
    if keys.len() == 0 {
        Seq::<char>::empty()
    } else {
        listed(keys.drop_last()) + keys.last() + ", "@
    }
}

/// The text shown for a validation error.
pub open spec fn validation_message(error: ValidationErrorView) -> Seq<char> {
    match error {
        ValidationErrorView::MissingFields(keys) => "Missing field(s): `"@ + listed(keys) + "`"@,
        ValidationErrorView::InvalidEnumValue(value) => "Invalid Class Recived: `"@ + value
            + "`"@,
    }
}

/// The required key at `index`.
fn required_key(index: usize) -> (key: &'static str)
    requires
        index < 11,
    ensures
        key@ == required_keys()[index as int],
{
    if index == 0 {
        "name"
    } else if index == 1 {
        "species"
    } else if index == 2 {
        "alignment"
    } else if index == 3 {
        "likes"
    } else if index == 4 {
        "dislikes"
    } else if index == 5 {
        "motivations"
    } else if index == 6 {
        "companions"
    } else if index == 7 {
        "backstory"
    } else if index == 8 {
        "appearance"
    } else if index == 9 {
        "extra"
    } else {
        "class"
    }
}

/// The value stored under a key that is known to be present.
fn value_of(data_in: &Collected, key: &str) -> (value: String)
    requires
        data_in@.contains_key(key@),
    ensures
        value@ == data_in@[key@],
{
    match data_in.get(key) {
        Some(found) => found.clone(),
        None => unreached(),
    }
}

/// No required key is missing exactly when every one of them has a value.
pub proof fn lemma_missing_none_iff_complete(collected: Map<Seq<char>, Seq<char>>)
    ensures
        missing_keys(collected).len() == 0 <==> is_complete(collected),
{
    let absent = |key: Seq<char>| !collected.contains_key(key);
    let keys = required_keys();
    if is_complete(collected) {
        if missing_keys(collected).len() > 0 {
            let first = missing_keys(collected)[0];
            keys.lemma_filter_pred(absent, 0);
            keys.lemma_filter_contains_rev(absent, first);
            assert(missing_keys(collected).contains(first));
            let i = choose|i: int| 0 <= i < keys.len() && keys[i] == first;
            assert(collected.contains_key(required_keys()[i]));
        }
    } else {
        let i = choose|i: int|
            0 <= i < required_keys().len() && !collected.contains_key(
                #[trigger] required_keys()[i],
            );
        keys.lemma_filter_contains(absent, i);
        assert(missing_keys(collected).contains(keys[i]));
    }
}

/// A required key without a value is named in the report of missing keys.
pub proof fn lemma_missing_key_is_named(collected: Map<Seq<char>, Seq<char>>, index: int)
    requires
        0 <= index < required_keys().len(),
        !collected.contains_key(required_keys()[index]),
    ensures
        entity_of(collected) matches Err(ValidationErrorView::MissingFields(keys))
            && keys.contains(required_keys()[index]),
{
    let absent = |key: Seq<char>| !collected.contains_key(key);
    required_keys().lemma_filter_contains(absent, index);
    let named = missing_keys(collected);
    assert(named.contains(required_keys()[index]));
    let at = choose|at: int| 0 <= at < named.len() && named[at] == required_keys()[index];
    assert(named.len() > 0);
}

/// Complete values whose class is none of the three labels are refused, and
/// the refusal carries the offending value.
pub proof fn lemma_invalid_class_is_rejected(collected: Map<Seq<char>, Seq<char>>)
    requires
        is_complete(collected),
        class_of_label(collected["class"@]) is None,
    ensures
        entity_of(collected) == Err::<CharacterView, ValidationErrorView>(
            ValidationErrorView::InvalidEnumValue(collected["class"@]),
        ),
{
    lemma_missing_none_iff_complete(collected);
}

/// Complete values with a valid class make a character that holds exactly
/// those values.
pub proof fn lemma_valid_values_make_character(
    collected: Map<Seq<char>, Seq<char>>,
    class: CharacterClass,
)
    requires
        is_complete(collected),
        class_of_label(collected["class"@]) == Some(class),
    ensures
        entity_of(collected) == Ok::<CharacterView, ValidationErrorView>(
            character_of(collected, class),
        ),
{
    lemma_missing_none_iff_complete(collected);
}

impl ValidationError {
    /// The text shown to the user for this error.
    pub fn message(&self) -> (text: String)
        ensures
            text@ == validation_message(self@),
    {
        match self {
            ValidationError::MissingFields(keys) => {
                let ghost names = keys@.map_values(|key: String| key@);
                let mut text = String::from_str("Missing field(s): `");
                let mut i: usize = 0;
                proof {
                    assert(names.take(0) =~= Seq::<Seq<char>>::empty());
                    assert(text@ =~= "Missing field(s): `"@ + listed(names.take(0)));
                }
                while i < keys.len()
                    invariant
                        i <= keys.len(),
                        names == keys@.map_values(|key: String| key@),
                        text@ == "Missing field(s): `"@ + listed(names.take(i as int)),
                    decreases keys.len() - i,
                {
                    proof {
                        assert(names.take(i + 1).drop_last() =~= names.take(i as int));
                        assert(names.take(i + 1).last() == keys[i as int]@);
                    }
                    text.append(keys[i].as_str());
                    text.append(", ");
                    proof {
                        assert(text@ =~= "Missing field(s): `"@ + listed(names.take(i + 1)));
                    }
                    i += 1;
                }
                proof {
                    assert(names.take(keys.len() as int) =~= names);
                }
                text.append("`");
                text
            },
            ValidationError::InvalidEnumValue(value) => {
                let mut text = String::from_str("Invalid Class Recived: `");
                text.append(value.as_str());
                text.append("`");
                text
            },
        }
    }
}

impl Character {
    /// Makes a character from gathered values.
    ///
    /// Fails with the list of required keys that hold no value, if there is
    /// any; else with the class value, if it is none of the three labels.
    pub fn from_hashmap_cache(data_in: &Collected) -> (built: Result<Character, ValidationError>)
        ensures
            match built {
                Ok(character) => entity_of(data_in@) == Ok::<CharacterView, ValidationErrorView>(
                    character@,
                ),
                Err(error) => entity_of(data_in@) == Err::<CharacterView, ValidationErrorView>(
                    error@,
                ),
            },
    {
        let ghost absent = |key: Seq<char>| !data_in@.contains_key(key);
        let ghost keys = required_keys();
        let mut missing_fields: Vec<String> = Vec::new();
        let mut index: usize = 0;
        proof {
            reveal(Seq::filter);
            assert(keys.take(0) =~= Seq::<Seq<char>>::empty());
            assert(missing_fields@.map_values(|key: String| key@) =~= keys.take(0).filter(absent));
        }
        while index < 11
            invariant
                index <= 11,
                keys == required_keys(),
                absent == |key: Seq<char>| !data_in@.contains_key(key),
                missing_fields@.map_values(|key: String| key@) == keys.take(index as int).filter(
                    absent,
                ),
            decreases 11 - index,
        {
            let field = required_key(index);
            proof {
                reveal(Seq::filter);
                assert(keys.take(index + 1).drop_last() =~= keys.take(index as int));
                assert(keys.take(index + 1).last() == field@);
            }
            if !data_in.contains_key(field) {
                let ghost shorter = missing_fields@;
                missing_fields.push(String::from_str(field));
                assert(missing_fields@.map_values(|key: String| key@) =~= shorter.map_values(
                    |key: String| key@,
                ).push(field@));
            }
            index += 1;
        }
        proof {
            assert(keys.take(11) =~= keys);
            lemma_missing_none_iff_complete(data_in@);
        }
        if missing_fields.len() > 0 {
            return Err(ValidationError::MissingFields(missing_fields));
        }
        proof {
            // every required key is present: look at each of the eleven
            assert(is_complete(data_in@));
            assert(forall|i: int| 0 <= i < 11 ==> data_in@.contains_key(#[trigger] keys[i]));
        }
        let class_value = value_of(data_in, "class");
        let class = match CharacterClass::parse(class_value.as_str()) {
            Some(class) => class,
            None => {
                return Err(ValidationError::InvalidEnumValue(class_value));
            },
        };
        Ok(
            Character {
                name: value_of(data_in, "name"),
                species: value_of(data_in, "species"),
                alignment: value_of(data_in, "alignment"),
                likes: value_of(data_in, "likes"),
                dislike: value_of(data_in, "dislikes"),
                motivations: value_of(data_in, "motivations"),
                companions: value_of(data_in, "companions"),
                backstory: value_of(data_in, "backstory"),
                appearance: value_of(data_in, "appearance"),
                extras: value_of(data_in, "extra"),
                class,
            },
        )
    }
}

/// Makes a character from gathered values, or says why there is none.
pub fn build_entity(collected: &Collected) -> (built: Result<Character, ValidationError>)
    ensures
        match built {
            Ok(character) => entity_of(collected@) == Ok::<CharacterView, ValidationErrorView>(
                character@,
            ),
            Err(error) => entity_of(collected@) == Err::<CharacterView, ValidationErrorView>(
                error@,
            ),
        },
{
    Character::from_hashmap_cache(collected)
}

} // verus!
