//! Names of archive files: `backup-`, the time of creation in whole seconds
//! since the Unix epoch, and `.tar.gz`.

use vstd::prelude::*;
use vstd::string::*;
use crate::decimal::{
    all_digits, decimal_value, digits_spec, lemma_digits_denote, push_decimal,
};
use crate::extension::{is_archive_name_spec, lemma_archive_name_is_suffix};

verus! {

/// What every archive file name begins with.
pub open spec fn name_prefix() -> Seq<char> {
    seq!['b', 'a', 'c', 'k', 'u', 'p', '-']
}

/// What every archive file name ends with.
pub open spec fn name_suffix() -> Seq<char> {
    seq!['.', 't', 'a', 'r', '.', 'g', 'z']
}

/// The name of the archive created at `timestamp`.
pub open spec fn archive_file_name_spec(timestamp: u64) -> Seq<char> {
    name_prefix() + digits_spec(timestamp as nat) + name_suffix()
}

/// Whether `name` has the shape of an archive file name whose digits
/// denote `timestamp`.
pub open spec fn names_timestamp(name: Seq<char>, timestamp: u64) -> bool {
    exists|digits: Seq<char>|
        #![trigger all_digits(digits)]
        digits.len() >= 1 && all_digits(digits) && decimal_value(digits) == timestamp && name
            == name_prefix() + digits + name_suffix()
}

/// The name of the archive created at `timestamp`, in seconds since the
/// Unix epoch.
pub fn archive_file_name(timestamp: u64) -> (name: String)
    ensures
        name@ == archive_file_name_spec(timestamp),
{
    proof {
        reveal_strlit("backup-");
        reveal_strlit(".tar.gz");
    }
    let mut name = String::from_str("backup-");
    push_decimal(&mut name, timestamp);
    name.append(".tar.gz");
    name
}

/// The digits in an archive file name are decimal digits that denote the
/// time of creation.
pub proof fn lemma_name_holds_timestamp(timestamp: u64)
    ensures
        names_timestamp(archive_file_name_spec(timestamp), timestamp),
{
    lemma_digits_denote(timestamp as nat);
    assert(all_digits(digits_spec(timestamp as nat)));
}

/// Every archive file name carries the archive extension.
pub proof fn lemma_name_is_archive_name(timestamp: u64)
    ensures
        is_archive_name_spec(archive_file_name_spec(timestamp)),
{
    let name = archive_file_name_spec(timestamp);
    lemma_archive_name_is_suffix(name);
    assert(name.subrange(name.len() - 3, name.len() as int) =~= seq!['.', 'g', 'z']);
}

/// The digits of an archive file name, cut out of it.
pub open spec fn digits_of_name(name: Seq<char>) -> Seq<char> {
    name.subrange(7, name.len() - 7)
}

/// Archives created at different seconds have different names.
pub proof fn lemma_names_differ(first: u64, second: u64)
    requires
        first != second,
    ensures
        archive_file_name_spec(first) != archive_file_name_spec(second),
{
    lemma_digits_denote(first as nat);
    lemma_digits_denote(second as nat);
    assert(digits_of_name(archive_file_name_spec(first)) =~= digits_spec(first as nat));
    assert(digits_of_name(archive_file_name_spec(second)) =~= digits_spec(second as nat));
}

} // verus!
