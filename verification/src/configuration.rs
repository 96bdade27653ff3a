//! The project manifest and its file mappings.

use vstd::prelude::*;
use vstd::string::*;

verus! {

/// What a [`File`] is in contracts.
pub struct FileView {
    pub source: Seq<char>,
    pub destination: Seq<char>,
}

/// One secret file's copy rule.
#[derive(Debug, PartialEq, Eq)]
pub struct File {
    /// Path relative to the root of the secrets repository.
    pub source: String,
    /// Path relative to the project root.
    pub destination: String,
}

impl View for File {
    type V = FileView;

    open spec fn view(&self) -> FileView {
        FileView { source: self.source@, destination: self.destination@ }
    }
}

impl Clone for File {
    fn clone(&self) -> (copy: Self)
        ensures
            copy@ == self@,
    {
        File { source: self.source.clone(), destination: self.destination.clone() }
    }
}

/// Where the encrypted form of a file with destination `destination` is kept.
pub open spec fn encrypted_path(destination: Seq<char>) -> Seq<char> {
    destination + ".enc"@
}

impl File {
    /// The project-relative path of the encrypted file.
    pub fn get_encrypted_destination(&self) -> (path: String)
        ensures
            path@ == encrypted_path(self.destination@),
            path@ == self.destination@ + seq!['.', 'e', 'n', 'c'],
    {
        proof {
            reveal_strlit(".enc");
        }
        self.destination.clone().concat(".enc")
    }

    /// The project-relative path of the decrypted file.
    pub fn get_decrypted_destination(&self) -> (path: String)
        ensures
            path@ == self.destination@,
    {
        self.destination.clone()
    }
}

/// What a [`ConfigurationFile`] is in contracts.
pub struct ConfigurationView {
    pub project_name: Seq<char>,
    pub branch: Seq<char>,
    pub pinned_hash: Seq<char>,
    pub files_to_copy: Seq<FileView>,
}

impl ConfigurationView {
    /// The manifest of a project that has not been set up.
    pub open spec fn empty() -> ConfigurationView {
        ConfigurationView {
            project_name: Seq::empty(),
            branch: Seq::empty(),
            pinned_hash: Seq::empty(),
            files_to_copy: Seq::empty(),
        }
    }

    pub open spec fn is_empty(self) -> bool {
        self == Self::empty()
    }

    pub open spec fn needs_project_name(self) -> bool {
        self.project_name.len() == 0
    }

    pub open spec fn needs_branch(self) -> bool {
        self.branch.len() == 0
    }

    pub open spec fn needs_pinned_hash(self) -> bool {
        self.pinned_hash.len() == 0
    }
}

/// The views of a list of file mappings, in order.
pub open spec fn file_views(files: Seq<File>) -> Seq<FileView> {
    files.map_values(|file: File| file@)
}

/// The persisted project manifest.
#[derive(Debug, PartialEq, Eq)]
pub struct ConfigurationFile {
    pub project_name: String,
    /// The branch of the secrets repository that the project tracks.
    pub branch: String,
    /// The commit of `branch` that the project's secrets are taken from.
    pub pinned_hash: String,
    /// Kept in insertion order.
    pub files_to_copy: Vec<File>,
}

impl View for ConfigurationFile {
    type V = ConfigurationView;

    open spec fn view(&self) -> ConfigurationView {
        ConfigurationView {
            project_name: self.project_name@,
            branch: self.branch@,
            pinned_hash: self.pinned_hash@,
            files_to_copy: file_views(self.files_to_copy@),
        }
    }
}

impl ConfigurationFile {
    /// Whether nothing has been configured yet.
    pub fn is_empty(&self) -> (empty: bool)
        ensures
            empty == self@.is_empty(),
    {
        let empty = self.project_name.as_str().is_empty() && self.branch.as_str().is_empty()
            && self.pinned_hash.as_str().is_empty() && self.files_to_copy.len() == 0;
        proof {
            let view = self@;
            if empty {
                assert(view.project_name =~= Seq::empty());
                assert(view.branch =~= Seq::empty());
                assert(view.pinned_hash =~= Seq::empty());
                assert(view.files_to_copy =~= Seq::empty());
            } else {
                assert(view.files_to_copy.len() == self.files_to_copy.len());
            }
        }
        empty
    }

    /// Whether the project name is unset.
    pub fn needs_project_name(&self) -> (needed: bool)
        ensures
            needed == self@.needs_project_name(),
            needed <==> self.project_name@ =~= Seq::<char>::empty(),
    {
        self.project_name.as_str().is_empty()
    }

    /// Whether the tracked branch is unset.
    pub fn needs_branch(&self) -> (needed: bool)
        ensures
            needed == self@.needs_branch(),
            needed <==> self.branch@ =~= Seq::<char>::empty(),
    {
        self.branch.as_str().is_empty()
    }

    /// Whether the pinned commit is unset.
    pub fn needs_pinned_hash(&self) -> (needed: bool)
        ensures
            needed == self@.needs_pinned_hash(),
            needed <==> self.pinned_hash@ =~= Seq::<char>::empty(),
    {
        self.pinned_hash.as_str().is_empty()
    }
}

impl Default for ConfigurationFile {
    fn default() -> (configuration: Self)
        ensures
            configuration@ == ConfigurationView::empty(),
    {
        let configuration = ConfigurationFile {
            project_name: String::new(),
            branch: String::new(),
            pinned_hash: String::new(),
            files_to_copy: Vec::new(),
        };
        assert(configuration@.files_to_copy =~= Seq::empty());
        configuration
    }
}

impl Clone for ConfigurationFile {
    fn clone(&self) -> (copy: Self)
        ensures
            copy@ == self@,
    {
        let mut files: Vec<File> = Vec::new();
        let mut index: usize = 0;
        while index < self.files_to_copy.len()
            invariant
                index <= self.files_to_copy.len(),
                files.len() == index,
                forall|i: int| 0 <= i < index ==> files[i]@ == self.files_to_copy[i]@,
            decreases self.files_to_copy.len() - index,
        {
            files.push(self.files_to_copy[index].clone());
            index = index + 1;
        }
        let copy = ConfigurationFile {
            project_name: self.project_name.clone(),
            branch: self.branch.clone(),
            pinned_hash: self.pinned_hash.clone(),
            files_to_copy: files,
        };
        assert(copy@.files_to_copy =~= self@.files_to_copy);
        copy
    }
}

/// Only the manifest that nothing has been entered into is empty: a
/// manifest is empty exactly when its three texts are empty and it has no
/// file mapping, so one that differs from the empty manifest in any one
/// field is not empty, and two empty manifests are the same.
pub proof fn lemma_only_the_default_is_empty(configuration: ConfigurationView)
    ensures
        configuration.is_empty() <==> configuration.project_name.len() == 0
            && configuration.branch.len() == 0 && configuration.pinned_hash.len() == 0
            && configuration.files_to_copy.len() == 0,
        configuration.is_empty() <==> configuration == ConfigurationView::empty(),
        configuration.project_name != ConfigurationView::empty().project_name
            ==> !configuration.is_empty(),
        configuration.branch != ConfigurationView::empty().branch ==> !configuration.is_empty(),
        configuration.pinned_hash != ConfigurationView::empty().pinned_hash
            ==> !configuration.is_empty(),
        configuration.files_to_copy != ConfigurationView::empty().files_to_copy
            ==> !configuration.is_empty(),
        configuration.is_empty() ==> configuration.needs_project_name()
            && configuration.needs_branch() && configuration.needs_pinned_hash(),
{
    let empty = ConfigurationView::empty();
    if configuration.project_name.len() == 0 && configuration.branch.len() == 0
        && configuration.pinned_hash.len() == 0 && configuration.files_to_copy.len() == 0 {
        assert(configuration.project_name =~= empty.project_name);
        assert(configuration.branch =~= empty.branch);
        assert(configuration.pinned_hash =~= empty.pinned_hash);
        assert(configuration.files_to_copy =~= empty.files_to_copy);
    }
}

/// The encrypted file of a mapping lies beside its decrypted file, under the
/// same name with `.enc` after it.
pub proof fn lemma_encrypted_path_extends_destination(destination: Seq<char>)
    ensures
        encrypted_path(destination) == destination + seq!['.', 'e', 'n', 'c'],
        encrypted_path(destination).len() == destination.len() + 4,
        encrypted_path(destination).subrange(0, destination.len() as int) == destination,
        encrypted_path(destination) != destination,
{
    reveal_strlit(".enc");
}

} // verus!
