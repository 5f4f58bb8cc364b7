//! The fixed catalogue of the wizard: which fields each stage asks for, and
//! the prompt that introduces each stage.
//!
//! Stages, in order: `0` introduction, `1` to `4` collecting, `5` choice of
//! class, `6` confirmation.

use crate::characters::required_keys;
use crate::text::{append_decimal, decimal};
use vstd::prelude::*;
use vstd::string::*;

verus! {

/// The stage of the introduction.
pub const INTRO_STAGE: u8 = 0;

/// The last stage that asks for field values through a form.
pub const LAST_COLLECTING_STAGE: u8 = 4;

/// The stage at which the class is chosen.
pub const CLASS_STAGE: u8 = 5;

/// The stage at which the user confirms the build.
pub const CONFIRM_STAGE: u8 = 6;

/// The stage named on what is shown after a successful build.
pub const DONE_STAGE: u8 = 7;

/// One field of a form.
#[derive(Clone, Debug, PartialEq, Eq)]
pub struct FieldSpec {
    pub stage: u8,
    pub display_label: String,
    pub storage_key: String,
    pub multiline: bool,
}

/// What a field of a form holds.
pub struct FieldSpecView {
    pub stage: u8,
    pub display_label: Seq<char>,
    pub storage_key: Seq<char>,
    pub multiline: bool,
}

impl View for FieldSpec {
    type V = FieldSpecView;

    open spec fn view(&self) -> FieldSpecView {
        FieldSpecView {
            stage: self.stage,
            display_label: self.display_label@,
            storage_key: self.storage_key@,
            multiline: self.multiline,
        }
    }
}

/// The text that introduces a stage.
#[derive(Clone, Debug, PartialEq, Eq)]
pub struct Prompt {
    pub title: String,
    pub description: String,
    /// Progress through the stages, where the stage shows any.
    pub footer: Option<String>,
}

/// What a prompt holds.
pub struct PromptView {
    pub title: Seq<char>,
    pub description: Seq<char>,
    pub footer: Option<Seq<char>>,
}

impl View for Prompt {
    type V = PromptView;

    open spec fn view(&self) -> PromptView {
        PromptView {
            title: self.title@,
            description: self.description@,
            footer: match self.footer {
                Some(footer) => Some(footer@),
                None => None,
            },
        }
    }
}

/// A stage number for which the catalogue holds nothing.
#[derive(Clone, Copy, Debug, PartialEq, Eq, Structural)]
pub struct InvalidStage {
    pub stage: u8,
}

/// Whether a form belongs to `stage`.
pub open spec fn has_fields(stage: u8) -> bool {
    1 <= stage <= LAST_COLLECTING_STAGE
}

/// Whether a prompt belongs to `stage`.
pub open spec fn has_prompt(stage: u8) -> bool {
    stage <= CONFIRM_STAGE
}

/// Label, storage key and whether the input is a paragraph, for each field
/// of the form of `stage`, in the order of display.
pub open spec fn modal_fields(stage: u8) -> Seq<(Seq<char>, Seq<char>, bool)> {
    if stage == 1 {
        seq![("Name"@, "name"@, false), ("Species"@, "species"@, false), ("Appearance"@, "appearance"@, true)]
    } else if stage == 2 {
        seq![("Likes"@, "likes"@, false), ("Dislikes"@, "dislikes"@, false)]
    } else if stage == 3 {
        seq![("Companions"@, "companions"@, true), ("Extra"@, "extra"@, true)]
    } else if stage == 4 {
        seq![
            ("Motivations"@, "motivations"@, false),
            ("Alignment"@, "alignment"@, false),
            ("Backstory"@, "backstory"@, true),
        ]
    } else {
        Seq::empty()
    }
}

/// The fields of the form of `stage`.
pub open spec fn stage_fields(stage: u8) -> Seq<FieldSpecView> {
    modal_fields(stage).map_values(
        |field: (Seq<char>, Seq<char>, bool)|
            FieldSpecView {
                stage,
                display_label: field.0,
                storage_key: field.1,
                multiline: field.2,
            },
    )
}

/// The storage keys of the form of `stage`, in the order of display.
pub open spec fn stage_keys(stage: u8) -> Seq<Seq<char>> {
    modal_fields(stage).map_values(|field: (Seq<char>, Seq<char>, bool)| field.1)
}

/// The title of the prompt of `stage`.
pub open spec fn prompt_title(stage: u8) -> Seq<char> {
    if stage == 0 {
        "Welcome to character createion!"@
    } else if stage == 1 {
        "First of all, the basics"@
    } else if stage == 2 {
        "Next up, what does your character have a regard for, anything they abhore?"@
    } else if stage == 3 {
        "Do they wander with others? Any other extra information?"@
    } else if stage == 4 {
        "What drives them? Do they stick with a team? What's their past?"@
    } else if stage == 5 {
        "Lastly, what's their class?"@
    } else {
        "Finish"@
    }
}

/// The description of the prompt of `stage`.
pub open spec fn prompt_description(stage: u8) -> Seq<char> {
    if stage == 0 {
        "To build your character press  `Start`  when ready, or  `Cancel`  at any time to stop.\n \
        Character creation will occur in stages, with forms popping up whenever you click `Continue` \
        to prompt for your input. Feel free to go at your own pace."@
    } else if stage == 1 {
        "What's your character's name, species, and appearance?"@
    } else if stage == 2 {
        "DESC: Large or small, whether it's a quiet moment with a cup of tea that they like, or their \
        archnemesis, which they dispise"@
    } else if stage == 3 {
        "If your character is a loner, feel free to type in 'N/A'"@
    } else if stage == 4 {
        "What are their Motivations? Do they align themselves to anybody/anything? What's their backstory"@
    } else if stage == 5 {
        "\
        - Martial: They fight with weapons lacking magic\
        - Caster: They prefer the magical arts\
        - Half-Caster: They're a mix of both
        "@
    } else {
        "Finish"@
    }
}

/// The progress shown under the prompt of `stage`: the stage out of five, for
/// the stages that gather something.
pub open spec fn prompt_footer(stage: u8) -> Option<Seq<char>> {
    if 1 <= stage <= CLASS_STAGE {
        Some(decimal(stage as nat) + "/5"@)
    } else {
        None
    }
}

/// The prompt of `stage`.
pub open spec fn stage_prompt(stage: u8) -> PromptView {
    PromptView {
        title: prompt_title(stage),
        description: prompt_description(stage),
        footer: prompt_footer(stage),
    }
}

/// The title of the prompt of a stage that has one.
fn title_text(stage: u8) -> (title: &'static str)
    requires
        has_prompt(stage),
    ensures
        title@ == prompt_title(stage),
{
    if stage == 0 {
        "Welcome to character createion!"
    } else if stage == 1 {
        "First of all, the basics"
    } else if stage == 2 {
        "Next up, what does your character have a regard for, anything they abhore?"
    } else if stage == 3 {
        "Do they wander with others? Any other extra information?"
    } else if stage == 4 {
        "What drives them? Do they stick with a team? What's their past?"
    } else if stage == 5 {
        "Lastly, what's their class?"
    } else {
        "Finish"
    }
}

/// The description of the prompt of a stage that has one.
fn description_text(stage: u8) -> (description: &'static str)
    requires
        has_prompt(stage),
    ensures
        description@ == prompt_description(stage),
{
    if stage == 0 {
        "To build your character press  `Start`  when ready, or  `Cancel`  at any time to stop.\n \
        Character creation will occur in stages, with forms popping up whenever you click `Continue` \
        to prompt for your input. Feel free to go at your own pace."
    } else if stage == 1 {
        "What's your character's name, species, and appearance?"
    } else if stage == 2 {
        "DESC: Large or small, whether it's a quiet moment with a cup of tea that they like, or their \
        archnemesis, which they dispise"
    } else if stage == 3 {
        "If your character is a loner, feel free to type in 'N/A'"
    } else if stage == 4 {
        "What are their Motivations? Do they align themselves to anybody/anything? What's their backstory"
    } else if stage == 5 {
        "\
        - Martial: They fight with weapons lacking magic\
        - Caster: They prefer the magical arts\
        - Half-Caster: They're a mix of both
        "
    } else {
        "Finish"
    }
}

/// The prompt that introduces `stage`, or `InvalidStage` for a stage without
/// one.
pub fn prompt_for(stage: u8) -> (prompt: Result<Prompt, InvalidStage>)
    ensures
        match prompt {
            Ok(found) => has_prompt(stage) && found@ == stage_prompt(stage),
            Err(error) => !has_prompt(stage) && error.stage == stage,
        },
{
    if stage > CONFIRM_STAGE {
        return Err(InvalidStage { stage });
    }
    let footer = if 1 <= stage && stage <= CLASS_STAGE {
        let mut progress = String::new();
        append_decimal(&mut progress, stage as u64);
        progress.append("/5");
        assert(progress@ =~= decimal(stage as nat) + "/5"@);
        Some(progress)
    } else {
        None
    };
    Ok(
        Prompt {
            title: String::from_str(title_text(stage)),
            description: String::from_str(description_text(stage)),
            footer,
        },
    )
}

/// Label, storage key and whether the input is a paragraph, for each field
/// of the form of `stage`.
pub fn get_modal_fields(stage: &u8) -> (fields: Vec<(&'static str, &'static str, bool)>)
    requires
        has_fields(*stage),
    ensures
        fields@.map_values(|field: (&'static str, &'static str, bool)| (field.0@, field.1@, field.2))
            == modal_fields(*stage),
{
    let mut fields: Vec<(&'static str, &'static str, bool)> = Vec::new();
    if *stage == 1 {
        fields.push(("Name", "name", false));
        fields.push(("Species", "species", false));
        fields.push(("Appearance", "appearance", true));
    } else if *stage == 2 {
        fields.push(("Likes", "likes", false));
        fields.push(("Dislikes", "dislikes", false));
    } else if *stage == 3 {
        fields.push(("Companions", "companions", true));
        fields.push(("Extra", "extra", true));
    } else {
        fields.push(("Motivations", "motivations", false));
        fields.push(("Alignment", "alignment", false));
        fields.push(("Backstory", "backstory", true));
    }
    assert(fields@.map_values(
        |field: (&'static str, &'static str, bool)| (field.0@, field.1@, field.2),
    ) =~= modal_fields(*stage));
    fields
}

/// The fields of the form of `stage`, or `InvalidStage` for a stage without
/// a form.
pub fn fields_for(stage: u8) -> (fields: Result<Vec<FieldSpec>, InvalidStage>)
    ensures
        match fields {
            Ok(found) => has_fields(stage) && found@.map_values(|field: FieldSpec| field@)
                == stage_fields(stage),
            Err(error) => !has_fields(stage) && error.stage == stage,
        },
{
    if stage < 1 || stage > LAST_COLLECTING_STAGE {
        return Err(InvalidStage { stage });
    }
    let raw = get_modal_fields(&stage);
    let ghost raw_views = raw@.map_values(
        |field: (&'static str, &'static str, bool)| (field.0@, field.1@, field.2),
    );
    let mut found: Vec<FieldSpec> = Vec::new();
    let mut i: usize = 0;
    while i < raw.len()
        invariant
            i <= raw.len(),
            found.len() == i,
            raw_views == modal_fields(stage),
            raw_views.len() == raw.len(),
            forall|j: int| 0 <= j < raw.len() ==> raw_views[j] == (raw[j].0@, raw[j].1@, raw[j].2),
            forall|j: int| 0 <= j < i ==> found[j]@ == stage_fields(stage)[j],
        decreases raw.len() - i,
    {
        let (display_label, storage_key, multiline) = raw[i];
        found.push(
            FieldSpec {
                stage,
                display_label: String::from_str(display_label),
                storage_key: String::from_str(storage_key),
                multiline,
            },
        );
        i += 1;
    }
    assert(found@.map_values(|field: FieldSpec| field@) =~= stage_fields(stage));
    Ok(found)
}

/// Within one form no storage key occurs twice.
pub proof fn lemma_stage_keys_distinct(stage: u8, i: int, j: int)
    requires
        0 <= i < j < stage_keys(stage).len(),
    ensures
        stage_keys(stage)[i] != stage_keys(stage)[j],
{
    reveal_strlit("name");
    reveal_strlit("species");
    reveal_strlit("appearance");
    reveal_strlit("likes");
    reveal_strlit("dislikes");
    reveal_strlit("companions");
    reveal_strlit("extra");
    reveal_strlit("motivations");
    reveal_strlit("alignment");
    reveal_strlit("backstory");
    if stage_keys(stage)[i] == stage_keys(stage)[j] {
        assert(stage_keys(stage)[i].len() == stage_keys(stage)[j].len());
        assert(stage_keys(stage)[i][0] == stage_keys(stage)[j][0]);
    }
}

/// The forms together with the choice of class ask for exactly the keys that
/// a character needs: every key of a form is required, and every required
/// key is the class or belongs to the form of some stage.
pub proof fn lemma_catalogue_covers_required_keys()
    ensures
        forall|stage: u8, i: int|
            0 <= i < stage_keys(stage).len() ==> required_keys().contains(
                #[trigger] stage_keys(stage)[i],
            ),
        forall|k: int|
            0 <= k < required_keys().len() ==> #[trigger] required_keys()[k] == "class"@ || exists|
                stage: u8,
                i: int,
            |
                has_fields(stage) && 0 <= i < stage_keys(stage).len() && #[trigger] stage_keys(
                    stage,
                )[i] == required_keys()[k],
{
    let keys = required_keys();
    assert forall|stage: u8, i: int| 0 <= i < stage_keys(stage).len() implies keys.contains(
        #[trigger] stage_keys(stage)[i],
    ) by {
        let key = stage_keys(stage)[i];
        if stage == 1 {
            assert(key == keys[0] || key == keys[1] || key == keys[8]);
        } else if stage == 2 {
            assert(key == keys[3] || key == keys[4]);
        } else if stage == 3 {
            assert(key == keys[6] || key == keys[9]);
        } else {
            assert(stage == 4);
            assert(key == keys[5] || key == keys[2] || key == keys[7]);
        }
    }
    assert(stage_keys(1)[0] == keys[0]);
    assert(stage_keys(1)[1] == keys[1]);
    assert(stage_keys(4)[1] == keys[2]);
    assert(stage_keys(2)[0] == keys[3]);
    assert(stage_keys(2)[1] == keys[4]);
    assert(stage_keys(4)[0] == keys[5]);
    assert(stage_keys(3)[0] == keys[6]);
    assert(stage_keys(4)[2] == keys[7]);
    assert(stage_keys(1)[2] == keys[8]);
    assert(stage_keys(3)[1] == keys[9]);
    assert(keys[10] == "class"@);
}

} // verus!
