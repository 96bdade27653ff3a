//! Where the copy of a file goes that is made before the file is replaced.

use vstd::pervasive::unreached;
use vstd::prelude::*;
use vstd::string::*;
use crate::clock::{format_timestamp, local_now, Timestamp};
use crate::configuration::File;
use crate::path::{
    extension_of, file_name_of, joined, parent_of, path_file_name, path_join, path_parent,
    split_file_name, stem_of,
};

verus! {

/// The name of the backup of a file named `name`, made at the time that
/// `stamp` is the text of: the stem, a hyphen, the stamp, a dot, the
/// extension, and `.bak`.
pub open spec fn backup_name(name: Seq<char>, stamp: Seq<char>) -> Seq<char> {
    stem_of(name) + "-"@ + stamp + "."@ + extension_of(name) + ".bak"@
}

/// The directory that the backup of `destination` goes to: the one that
/// holds `destination`, and the root where nothing holds it.
pub open spec fn backup_directory(destination: Seq<char>) -> Seq<char> {
    match parent_of(destination) {
        Some(directory) => directory,
        None => "/"@,
    }
}

/// Where the backup of `destination` goes that is made at `at`.
pub open spec fn backup_path(destination: Seq<char>, at: Timestamp) -> Seq<char>
    recommends
        file_name_of(destination) is Some,
{
    joined(
        backup_directory(destination),
        backup_name(file_name_of(destination)->0, at.stamp_text()),
    )
}

/// Puts the name of a backup together.
pub fn backup_file_name(name: &str, stamp: &str) -> (backup: String)
    ensures
        backup@ == backup_name(name@, stamp@),
{
    let (stem, extension) = split_file_name(name);
    let mut backup = stem;
    backup.append("-");
    backup.append(stamp);
    backup.append(".");
    backup.append(extension.as_str());
    backup.append(".bak");
    backup
}

impl File {
    /// The path of the backup of the decrypted file that is made at `at`: in
    /// the directory of the destination, under the destination's name with
    /// the time between stem and extension, and `.bak` after it.
    pub fn get_backup_destination_at(&self, at: &Timestamp) -> (path: String)
        requires
            file_name_of(self.destination@) is Some,
            at.is_valid(),
        ensures
            path@ == backup_path(self.destination@, *at),
    {
        let name = match path_file_name(self.destination.as_str()) {
            Some(name) => name,
            None => unreached(),
        };
        let directory = match path_parent(self.destination.as_str()) {
            Some(parent) => parent,
            None => String::from_str("/"),
        };
        let stamp = match format_timestamp(at, "%Y-%m-%d-%H-%M-%S") {
            Some(stamp) => stamp,
            None => unreached(),
        };
        let backup = backup_file_name(name.as_str(), stamp.as_str());
        path_join(directory.as_str(), backup.as_str())
    }

    /// The path of the backup of the decrypted file that is made now. The
    /// time is read from the system's clock by `chrono`, which panics where
    /// that clock stands before 1970 or beyond the years that it has dates
    /// for.
    pub fn get_backup_destination(&self) -> (path: String)
        requires
            file_name_of(self.destination@) is Some,
        ensures
            exists|at: Timestamp| at.is_valid() && path@ == backup_path(self.destination@, at),
    {
        let now = local_now();
        self.get_backup_destination_at(&now)
    }

    /// The path of the backup that is made at `at`, where there is one: `at`
    /// has to be a point in time, and the destination has to name a file.
    pub fn backup_destination_at(&self, at: &Timestamp) -> (path: Option<String>)
        ensures
            path is Some <==> at.is_valid() && file_name_of(self.destination@) is Some,
            path matches Some(path) ==> path@ == backup_path(self.destination@, *at),
    {
        if !at.check() {
            return None;
        }
        match path_file_name(self.destination.as_str()) {
            Some(_) => Some(self.get_backup_destination_at(at)),
            None => None,
        }
    }

    /// The path of the backup that is made now, where the destination names
    /// a file. The clock is read as in [`File::get_backup_destination`].
    pub fn backup_destination(&self) -> (path: Option<String>)
        ensures
            path is Some <==> file_name_of(self.destination@) is Some,
            path matches Some(path) ==> exists|at: Timestamp|
                at.is_valid() && path@ == backup_path(self.destination@, at),
    {
        match path_file_name(self.destination.as_str()) {
            Some(_) => Some(self.get_backup_destination()),
            None => None,
        }
    }
}

} // verus!
