//! Which of the files of the models directory are models, and which model
//! a fresh installation uses.

use vstd::prelude::*;
use crate::settings::model_extension;
use crate::text::same_text;

verus! {

/// Name of the model that is preferred where it is installed.
pub open spec fn preferred_model_name() -> Seq<char> {
    "sd-v1-5_fp16.tdict"@
}

/// An entry of the models directory.
#[derive(Debug)]
pub struct ModelEntry {
    /// Path of the entry.
    pub path: String,
    /// Last component of the path, where it has one.
    pub file_name: Option<String>,
    /// Extension of the file name, without the dot, where it has one.
    pub extension: Option<String>,
}

impl ModelEntry {
    /// Whether the name of the entry carries the extension of model files.
    pub open spec fn is_model(self) -> bool {
        self.extension matches Some(e) && e@ == model_extension()
    }

    /// Whether the entry is listed: it is a model and has a file name.
    pub open spec fn is_listed(self) -> bool {
        self.is_model() && self.file_name is Some
    }

    /// Decides `is_model`.
    pub fn has_model_extension(&self) -> (yes: bool)
        ensures
            yes == self.is_model(),
    {
        match &self.extension {
            Some(e) => same_text(e.as_str(), "tdict"),
            None => false,
        }
    }
}

/// The names of the entries that are listed, in the order of the entries.
pub open spec fn model_names(entries: Seq<ModelEntry>) -> Seq<Seq<char>>
    decreases entries.len(),
{
    if entries.len() == 0 {
        Seq::empty()
    } else if entries.last().is_listed() {
        model_names(entries.drop_last()).push(entries.last().file_name->0@)
    } else {
        model_names(entries.drop_last())
    }
}

/// The texts of a list of strings.
pub open spec fn texts(names: Seq<String>) -> Seq<Seq<char>> {
    names.map_values(|name: String| name@)
}

/// Every name listed is the file name of an entry that is a model.
pub proof fn lemma_listed_names_are_models(entries: Seq<ModelEntry>, i: int)
    requires
        0 <= i < model_names(entries).len(),
    ensures
        exists|j: int|
            0 <= j < entries.len() && (#[trigger] entries[j]).is_listed() && entries[j].file_name->0@
                == model_names(entries)[i],
    decreases entries.len(),
{
    let rest = entries.drop_last();
    if entries.last().is_listed() && i == model_names(rest).len() {
        assert(entries[entries.len() - 1].is_listed());
    } else {
        lemma_listed_names_are_models(rest, i);
        let j = choose|j: int|
            0 <= j < rest.len() && (#[trigger] rest[j]).is_listed() && rest[j].file_name->0@
                == model_names(rest)[i];
        assert(entries[j] == rest[j]);
    }
}

/// Lists the models among the entries of the models directory: the file
/// names of the entries whose extension is that of model files, in the
/// order of the entries.
pub fn get_models(entries: &Vec<ModelEntry>) -> (names: Vec<String>)
    ensures
        texts(names@) == model_names(entries@),
{
    let mut names: Vec<String> = Vec::new();
    let mut i: usize = 0;
    assert(texts(names@) =~= model_names(entries@.take(0)));
    while i < entries.len()
        invariant
            i <= entries.len(),
            texts(names@) == model_names(entries@.take(i as int)),
        decreases entries.len() - i,
    {
        let ghost before = names@;
        proof {
            let next = entries@.take(i + 1);
            assert(next.drop_last() =~= entries@.take(i as int));
            assert(next.last() == entries@[i as int]);
        }
        if entries[i].has_model_extension() {
            match &entries[i].file_name {
                Some(name) => {
                    names.push(name.clone());
                    assert(texts(names@) =~= texts(before).push(name@));
                },
                None => {},
            }
        }
        i += 1;
    }
    assert(entries@.take(entries.len() as int) =~= entries@);
    names
}

/// Index of the first entry that is a model, or the number of entries where
/// none is.
pub open spec fn first_model(entries: Seq<ModelEntry>) -> int
    decreases entries.len(),
{
    if entries.len() == 0 {
        0
    } else if entries[0].is_model() {
        0
    } else {
        1 + first_model(entries.skip(1))
    }
}

/// No entry before `first_model` is a model, and the entry there is one
/// unless there is none.
pub proof fn lemma_first_model(entries: Seq<ModelEntry>)
    ensures
        0 <= first_model(entries) <= entries.len(),
        forall|i: int| 0 <= i < first_model(entries) ==> !(#[trigger] entries[i]).is_model(),
        first_model(entries) < entries.len() ==> entries[first_model(entries)].is_model(),
    decreases entries.len(),
{
    if entries.len() > 0 && !entries[0].is_model() {
        let rest = entries.skip(1);
        lemma_first_model(rest);
        assert forall|i: int| 0 <= i < first_model(entries) implies !(#[trigger] entries[i]).is_model() by {
            if i > 0 {
                assert(entries[i] == rest[i - 1]);
            }
        }
    }
}

/// The model path of a fresh installation.
pub open spec fn default_model_path(preferred: Option<String>, entries: Seq<ModelEntry>) -> Seq<
    char,
> {
    match preferred {
        Some(path) => path@,
        None => if first_model(entries) < entries.len() {
            entries[first_model(entries)].path@
        } else {
            Seq::empty()
        },
    }
}

/// Chooses the model of a fresh installation. `preferred` is the path of
/// the preferred model where that is installed; `entries` are the entries
/// of the models directory, none where there is no such directory. The
/// preferred model is taken where it is there, else the first entry that
/// is a model, else the empty path, which says that no model is configured.
pub fn get_default_model_path(preferred: Option<String>, entries: &Vec<ModelEntry>) -> (path:
    String)
    ensures
        path@ == default_model_path(preferred, entries@),
{
    match preferred {
        Some(path) => path,
        None => {
            let mut i: usize = 0;
            proof {
                lemma_first_model(entries@);
            }
            while i < entries.len()
                invariant
                    preferred is None,
                    i <= entries.len(),
                    forall|k: int| 0 <= k < i ==> !(#[trigger] entries@[k]).is_model(),
                    0 <= first_model(entries@) <= entries.len(),
                    forall|k: int|
                        0 <= k < first_model(entries@) ==> !(#[trigger] entries@[k]).is_model(),
                    first_model(entries@) < entries.len() ==> entries@[first_model(
                        entries@,
                    )].is_model(),
                decreases entries.len() - i,
            {
                if entries[i].has_model_extension() {
                    return entries[i].path.clone();
                }
                i += 1;
            }
            String::new()
        },
    }
}

} // verus!
