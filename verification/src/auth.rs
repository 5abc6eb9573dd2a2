//! The credential store: one file under the home directory that holds the
//! account's identifier and its access token.
//!
//! The file has one line for each field, a marker followed by the value:
//!
//! ```text
//! HABITICA_USER_ID=<identifier>
//! HABITICA_API_TOKEN=<token>
//! ```
//!
//! The functions here touch no file. Each takes what the caller saw on disk
//! and says what is to be written or removed, or what the file holds.

use vstd::prelude::*;
use crate::errors::{AppError, CredentialsFault};
use crate::text::{
    lemma_lines_first,
    lemma_lines_hold_no_line_feed,
    lemma_marked_value_of,
    lines,
    marked_value,
    split_lines,
    strip_marker,
    text_of,
    text_of_str,
    without_cr,
};

verus! {

/// The directory of the credentials file, below the home directory.
pub const KEYS_DIRECTORY: &'static str = "/Habix-API-Keys";

/// The credentials file, below its directory.
pub const KEYS_FILE: &'static str = "/habix-api-keys.txt";

/// What the line of the identifier starts with.
pub const USER_ID_MARKER: &'static str = "HABITICA_USER_ID=";

/// What the line of the access token starts with.
pub const API_TOKEN_MARKER: &'static str = "HABITICA_API_TOKEN=";

/// The pair that gives access to one account.
#[derive(Debug, PartialEq, Eq)]
pub struct Credentials {
    pub user_id: String,
    pub api_token: String,
}

/// What saving comes to on disk: the directory to create unless it is
/// there, the file to write and all it is to hold, and what to tell the
/// user once that is done.
#[derive(Debug, PartialEq, Eq)]
pub struct SavePlan {
    pub directory: String,
    pub file: String,
    pub content: String,
    pub notice: String,
}

/// What cleaning comes to on disk: the credentials file, whether it is to
/// be removed, and what to tell the user once that is done.
#[derive(Debug, PartialEq, Eq)]
pub struct CleanPlan {
    pub file: String,
    pub remove: bool,
    pub notice: String,
}

impl View for Credentials {
    type V = (Seq<char>, Seq<char>);

    open spec fn view(&self) -> (Seq<char>, Seq<char>) {
        (self.user_id@, self.api_token@)
    }
}

/// The directory of the credentials file for the home directory `home`.
pub open spec fn api_keys_dir(home: Seq<char>) -> Seq<char> {
    home + KEYS_DIRECTORY@
}

/// The path of the credentials file for the home directory `home`.
pub open spec fn api_keys_path(home: Seq<char>) -> Seq<char> {
    api_keys_dir(home) + KEYS_FILE@
}

/// All that the credentials file holds for this pair.
pub open spec fn file_content(user_id: Seq<char>, api_token: Seq<char>) -> Seq<char> {
    USER_ID_MARKER@ + user_id + seq!['\n'] + API_TOKEN_MARKER@ + api_token + seq!['\n']
}

/// The value of the last of `lines` that starts with `marker`, if any
/// does.
pub open spec fn last_value(lines: Seq<Seq<char>>, marker: Seq<char>) -> Option<Seq<char>>
    decreases lines.len(),
{
    if lines.len() == 0 {
        None
    } else {
        match marked_value(lines.last(), marker) {
            Some(value) => Some(value),
            None => last_value(lines.drop_last(), marker),
        }
    }
}

/// The pair that a file with this content holds: the identifier and the
/// token, each from the last line that carries its marker. A file that
/// lacks either holds no pair.
pub open spec fn stored(content: Seq<char>) -> Option<(Seq<char>, Seq<char>)> {
    match (
        last_value(lines(content), USER_ID_MARKER@),
        last_value(lines(content), API_TOKEN_MARKER@),
    ) {
        (Some(user_id), Some(api_token)) => Some((user_id, api_token)),
        _ => None,
    }
}

/// What loading finds where the file is as `file` says: `None` for no
/// file, else its content.
pub open spec fn loaded(file: Option<Seq<char>>) -> Result<
    (Seq<char>, Seq<char>),
    CredentialsFault,
> {
    match file {
        None => Err(CredentialsFault::NotFound),
        Some(content) => match stored(content) {
            Some(pair) => Ok(pair),
            None => Err(CredentialsFault::Malformed),
        },
    }
}

/// The file as it is once a `SavePlan` for this pair has been carried out.
pub open spec fn file_after_save(user_id: Seq<char>, api_token: Seq<char>) -> Option<Seq<char>> {
    Some(file_content(user_id, api_token))
}

/// The file as it is once a `CleanPlan` has been carried out on `file`.
pub open spec fn file_after_clean(file: Option<Seq<char>>, remove: bool) -> Option<Seq<char>> {
    if remove {
        None
    } else {
        file
    }
}

/// No line starts with both markers.
pub proof fn lemma_markers_exclude(line: Seq<char>)
    ensures
        !(USER_ID_MARKER@.is_prefix_of(line) && API_TOKEN_MARKER@.is_prefix_of(line)),
{
    reveal_strlit("HABITICA_USER_ID=");
    reveal_strlit("HABITICA_API_TOKEN=");
    if USER_ID_MARKER@.is_prefix_of(line) && API_TOKEN_MARKER@.is_prefix_of(line) {
        assert(line.subrange(0, 17)[9] == 'U');
        assert(line.subrange(0, 19)[9] == 'A');
    }
}

/// Whether the file keeps `value` as it is: a value that holds no line
/// feed and does not end in a carriage return. Either would read as the
/// end of a line, which a file of lines cannot keep inside a value.
pub open spec fn storable(value: Seq<char>) -> bool {
    &&& !value.contains('\n')
    &&& value.len() > 0 ==> value.last() != '\r'
}

/// Neither marker holds a line feed or ends in a carriage return, and
/// neither is empty.
proof fn lemma_markers_plain()
    ensures
        !USER_ID_MARKER@.contains('\n'),
        !API_TOKEN_MARKER@.contains('\n'),
        USER_ID_MARKER@.len() > 0 && USER_ID_MARKER@.last() != '\r',
        API_TOKEN_MARKER@.len() > 0 && API_TOKEN_MARKER@.last() != '\r',
{
    reveal_strlit("HABITICA_USER_ID=");
    reveal_strlit("HABITICA_API_TOKEN=");
}

/// The lines of the file that holds a pair without line feeds: one for
/// the identifier, one for the token.
proof fn lemma_lines_of_file(user_id: Seq<char>, api_token: Seq<char>)
    requires
        !user_id.contains('\n'),
        !api_token.contains('\n'),
    ensures
        lines(file_content(user_id, api_token)) == seq![
            without_cr(USER_ID_MARKER@ + user_id),
            without_cr(API_TOKEN_MARKER@ + api_token),
        ],
{
    lemma_markers_plain();
    let first = USER_ID_MARKER@ + user_id;
    let second = API_TOKEN_MARKER@ + api_token;
    let rest = second + seq!['\n'] + Seq::<char>::empty();
    assert forall|j: int| 0 <= j < first.len() implies first[j] != '\n' by {
        if j < USER_ID_MARKER@.len() {
            assert(first[j] == USER_ID_MARKER@[j]);
        } else {
            assert(first[j] == user_id[j - USER_ID_MARKER@.len()]);
        }
    }
    assert forall|j: int| 0 <= j < second.len() implies second[j] != '\n' by {
        if j < API_TOKEN_MARKER@.len() {
            assert(second[j] == API_TOKEN_MARKER@[j]);
        } else {
            assert(second[j] == api_token[j - API_TOKEN_MARKER@.len()]);
        }
    }
    lemma_lines_first(first, rest);
    lemma_lines_first(second, Seq::<char>::empty());
    assert(file_content(user_id, api_token) =~= first + seq!['\n'] + rest);
    assert(lines(Seq::<char>::empty()) =~= Seq::<Seq<char>>::empty());
    assert(seq![without_cr(first)] + (seq![without_cr(second)] + Seq::<Seq<char>>::empty()) =~= seq![
        without_cr(first),
        without_cr(second),
    ]);
}

/// What a file of two lines holds, where the first starts with the
/// marker of the identifier and the second with that of the token.
proof fn lemma_stored_of_two(first: Seq<char>, second: Seq<char>)
    requires
        USER_ID_MARKER@.is_prefix_of(first),
        API_TOKEN_MARKER@.is_prefix_of(second),
    ensures
        last_value(seq![first, second], USER_ID_MARKER@) == marked_value(first, USER_ID_MARKER@),
        last_value(seq![first, second], API_TOKEN_MARKER@) == marked_value(
            second,
            API_TOKEN_MARKER@,
        ),
{
    let both = seq![first, second];
    lemma_markers_exclude(second);
    assert(both.last() == second);
    assert(both.drop_last() =~= seq![first]);
    assert(seq![first].last() == first);
    assert(last_value(seq![first], USER_ID_MARKER@) == marked_value(first, USER_ID_MARKER@));
}

/// `line` still starts with `marker` once a carriage return at the end
/// of `value` is gone.
proof fn lemma_without_cr_keeps_marker(marker: Seq<char>, value: Seq<char>)
    requires
        marker.len() > 0,
        marker.last() != '\r',
    ensures
        without_cr(marker + value) == marker + without_cr(value),
        marker.is_prefix_of(without_cr(marker + value)),
{
    let line = marker + value;
    if value.len() > 0 {
        assert(line.last() == value.last());
        assert(line.drop_last() =~= marker + value.drop_last());
    } else {
        assert(line =~= marker);
        assert(marker + value =~= marker + without_cr(value));
    }
    let kept = marker + without_cr(value);
    assert(kept.subrange(0, marker.len() as int) =~= marker);
}

/// Saving and then loading gives the pair that was saved.
///
/// This holds of every pair whose two values are `storable`, the empty
/// ones and those that start with a marker included. Of no other pair does
/// it hold, as `lemma_save_then_load_needs` shows.
pub proof fn lemma_save_then_load(user_id: Seq<char>, api_token: Seq<char>)
    requires
        storable(user_id),
        storable(api_token),
    ensures
        loaded(file_after_save(user_id, api_token)) == Ok::<
            (Seq<char>, Seq<char>),
            CredentialsFault,
        >((user_id, api_token)),
{
    lemma_markers_plain();
    lemma_lines_of_file(user_id, api_token);
    lemma_without_cr_keeps_marker(USER_ID_MARKER@, user_id);
    lemma_without_cr_keeps_marker(API_TOKEN_MARKER@, api_token);
    let first = USER_ID_MARKER@ + user_id;
    let second = API_TOKEN_MARKER@ + api_token;
    assert(without_cr(user_id) == user_id);
    assert(without_cr(api_token) == api_token);
    lemma_stored_of_two(first, second);
    lemma_marked_value_of(USER_ID_MARKER@, user_id);
    lemma_marked_value_of(API_TOKEN_MARKER@, api_token);
}

/// The value of a line under a marker holds no character that the line
/// does not hold.
proof fn lemma_marked_value_within(line: Seq<char>, marker: Seq<char>)
    ensures
        marked_value(line, marker) matches Some(value) ==> (forall|c: char|
            value.contains(c) ==> line.contains(c)),
{
    if marker.is_prefix_of(line) {
        let m = marker.len() as int;
        let value = line.skip(m);
        assert forall|c: char| value.contains(c) implies line.contains(c) by {
            let i = choose|i: int| 0 <= i < value.len() && value[i] == c;
            assert(line[i + m] == c);
        }
    }
}

/// A value found among lines comes from one of them.
proof fn lemma_last_value_source(all: Seq<Seq<char>>, marker: Seq<char>) -> (i: int)
    requires
        last_value(all, marker) is Some,
    ensures
        0 <= i < all.len(),
        marked_value(all[i], marker) == last_value(all, marker),
    decreases all.len(),
{
    if marked_value(all.last(), marker) is Some {
        all.len() - 1
    } else {
        lemma_last_value_source(all.drop_last(), marker)
    }
}

/// A value that is loaded holds no line feed.
proof fn lemma_loaded_value_plain(content: Seq<char>, marker: Seq<char>)
    ensures
        last_value(lines(content), marker) matches Some(value) ==> !value.contains('\n'),
{
    if last_value(lines(content), marker) is Some {
        let i = lemma_last_value_source(lines(content), marker);
        lemma_lines_hold_no_line_feed(content);
        lemma_marked_value_within(lines(content)[i], marker);
    }
}

/// What is read back of a value that holds no line feed is the value
/// only if the value is storable.
proof fn lemma_read_back_needs(marker: Seq<char>, value: Seq<char>)
    requires
        marker.len() > 0,
        marker.last() != '\r',
        !value.contains('\n'),
        marked_value(without_cr(marker + value), marker) == Some(value),
    ensures
        storable(value),
{
    lemma_without_cr_keeps_marker(marker, value);
    lemma_marked_value_of(marker, without_cr(value));
}

/// Saving and then loading gives the pair that was saved only where both
/// of its values are `storable`.
pub proof fn lemma_save_then_load_needs(user_id: Seq<char>, api_token: Seq<char>)
    requires
        loaded(file_after_save(user_id, api_token)) == Ok::<
            (Seq<char>, Seq<char>),
            CredentialsFault,
        >((user_id, api_token)),
    ensures
        storable(user_id),
        storable(api_token),
{
    lemma_markers_plain();
    let content = file_content(user_id, api_token);
    lemma_loaded_value_plain(content, USER_ID_MARKER@);
    lemma_loaded_value_plain(content, API_TOKEN_MARKER@);
    lemma_lines_of_file(user_id, api_token);
    lemma_without_cr_keeps_marker(USER_ID_MARKER@, user_id);
    lemma_without_cr_keeps_marker(API_TOKEN_MARKER@, api_token);
    lemma_stored_of_two(
        without_cr(USER_ID_MARKER@ + user_id),
        without_cr(API_TOKEN_MARKER@ + api_token),
    );
    lemma_read_back_needs(USER_ID_MARKER@, user_id);
    lemma_read_back_needs(API_TOKEN_MARKER@, api_token);
}

/// Cleaning twice is cleaning once. Whatever the file was before the
/// first cleaning, once its plan has been carried out there is no file;
/// the second cleaning is then no error, removes nothing, and leaves no
/// file.
pub proof fn lemma_clean_twice(
    home: Seq<char>,
    file: Option<Seq<char>>,
    first: Result<CleanPlan, AppError>,
    second: Result<CleanPlan, AppError>,
)
    requires
        cleans(Some(home), file is Some, first),
        cleans(Some(home), file_after_clean(file, first.unwrap().remove) is Some, second),
    ensures
        first is Ok,
        file_after_clean(file, first.unwrap().remove) is None,
        second is Ok,
        !second.unwrap().remove,
        file_after_clean(file_after_clean(file, first.unwrap().remove), second.unwrap().remove)
            is None,
        loaded(file_after_clean(file, first.unwrap().remove)) == Err::<
            (Seq<char>, Seq<char>),
            CredentialsFault,
        >(CredentialsFault::NotFound),
{
}

/// The path of the credentials file. `home` is the home directory, `None`
/// where it is not known; without it there is no path.
pub fn get_api_keys_path(home: Option<&str>) -> (r: Result<String, AppError>)
    ensures
        match home {
            Some(dir) => r matches Ok(path) && path@ == api_keys_path(dir@),
            None => r == Err::<String, AppError>(
                AppError::CredentialsError(CredentialsFault::HomeUnknown),
            ),
        },
{
    match home {
        Some(dir) => {
            let mut path = String::from_str(dir);
            path.append(KEYS_DIRECTORY);
            path.append(KEYS_FILE);
            Ok(path)
        },
        None => Err(AppError::CredentialsError(CredentialsFault::HomeUnknown)),
    }
}

/// Whether `r` is what saving the pair must give: without a home
/// directory the error that says so, else the plan that writes exactly this
/// pair to the credentials file below that directory.
pub open spec fn saves(
    home: Option<Seq<char>>,
    user_id: Seq<char>,
    api_token: Seq<char>,
    r: Result<SavePlan, AppError>,
) -> bool {
    match home {
        Some(dir) => {
            &&& r matches Ok(plan)
            &&& plan.directory@ == api_keys_dir(dir)
            &&& plan.file@ == api_keys_path(dir)
            &&& plan.content@ == file_content(user_id, api_token)
            &&& plan.notice@ == "✅ Setup complete! Credentials saved at: "@ + api_keys_path(dir)
        },
        None => r == Err::<SavePlan, AppError>(
            AppError::CredentialsError(CredentialsFault::HomeUnknown),
        ),
    }
}

/// What is to be done on disk to store the pair. The file is written
/// whole, so nothing of an earlier pair stays.
///
/// Neither value is examined: a pair that `lemma_save_then_load` does not
/// cover is written as it is.
pub fn save_credentials(home: Option<&str>, user_id: &str, api_token: &str) -> (r: Result<
    SavePlan,
    AppError,
>)
    ensures
        saves(text_of_str(home), user_id@, api_token@, r),
{
    let file = match get_api_keys_path(home) {
        Ok(path) => path,
        Err(e) => {
            return Err(e);
        },
    };
    let dir = match home {
        Some(dir) => dir,
        None => {
            return Err(AppError::CredentialsError(CredentialsFault::HomeUnknown));
        },
    };
    let mut directory = String::from_str(dir);
    directory.append(KEYS_DIRECTORY);
    let mut content = String::from_str(USER_ID_MARKER);
    content.append(user_id);
    content.append("\n");
    content.append(API_TOKEN_MARKER);
    content.append(api_token);
    content.append("\n");
    let mut notice = String::from_str("✅ Setup complete! Credentials saved at: ");
    notice.append(file.as_str());
    proof {
        reveal_strlit("\n");
        assert("\n"@ =~= seq!['\n']);
    }
    Ok(SavePlan { directory, file, content, notice })
}

/// The pair that a file with this content holds, or `None` where it lacks
/// the identifier or the token.
pub fn parse_credentials(content: &str) -> (r: Option<Credentials>)
    ensures
        match stored(content@) {
            Some(pair) => r matches Some(credentials) && credentials@ == pair,
            None => r is None,
        },
{
    let all = split_lines(content);
    let mut user_id: Option<String> = None;
    let mut api_token: Option<String> = None;
    let ghost texts = all.deep_view();
    let mut i: usize = 0;
    assert(texts.take(0) =~= Seq::<Seq<char>>::empty());
    while i < all.len()
        invariant
            i <= all@.len(),
            texts == all.deep_view(),
            text_of(user_id) == last_value(texts.take(i as int), USER_ID_MARKER@),
            text_of(api_token) == last_value(texts.take(i as int), API_TOKEN_MARKER@),
        decreases all@.len() - i,
    {
        proof {
            assert(texts.take(i + 1).drop_last() =~= texts.take(i as int));
            assert(texts.take(i + 1).last() == all@[i as int]@);
            lemma_markers_exclude(all@[i as int]@);
        }
        let line = all[i].as_str();
        match strip_marker(line, USER_ID_MARKER) {
            Some(value) => {
                user_id = Some(value);
            },
            None => {
                match strip_marker(line, API_TOKEN_MARKER) {
                    Some(value) => {
                        api_token = Some(value);
                    },
                    None => {},
                }
            },
        }
        i += 1;
    }
    assert(texts.take(all@.len() as int) =~= texts);
    match (user_id, api_token) {
        (Some(user_id), Some(api_token)) => Some(Credentials { user_id, api_token }),
        _ => None,
    }
}

/// The stored pair. `home` is the home directory, `None` where it is not
/// known; `file` is what reading the credentials file gave, `None` where
/// there is no file or it cannot be read.
///
/// Either both fields are returned or neither is.
pub fn load_credentials(home: Option<&str>, file: Option<&str>) -> (r: Result<
    Credentials,
    AppError,
>)
    ensures
        home is None ==> r == Err::<Credentials, AppError>(
            AppError::CredentialsError(CredentialsFault::HomeUnknown),
        ),
        home is Some ==> match loaded(text_of_str(file)) {
            Ok(pair) => r matches Ok(credentials) && credentials@ == pair,
            Err(fault) => r == Err::<Credentials, AppError>(AppError::CredentialsError(fault)),
        },
        home is Some && file is None ==> r == Err::<Credentials, AppError>(
            AppError::CredentialsError(CredentialsFault::NotFound),
        ),
{
    if home.is_none() {
        return Err(AppError::CredentialsError(CredentialsFault::HomeUnknown));
    }
    match file {
        None => Err(AppError::CredentialsError(CredentialsFault::NotFound)),
        Some(content) => match parse_credentials(content) {
            Some(credentials) => Ok(credentials),
            None => Err(AppError::CredentialsError(CredentialsFault::Malformed)),
        },
    }
}

/// Whether `r` is what cleaning must give: without a home directory the
/// error that says so, else the plan that removes the credentials file
/// below that directory if and only if it is there.
pub open spec fn cleans(home: Option<Seq<char>>, exists: bool, r: Result<CleanPlan, AppError>) -> bool {
    match home {
        Some(dir) => {
            &&& r matches Ok(plan)
            &&& plan.file@ == api_keys_path(dir)
            &&& plan.remove == exists
            &&& plan.notice@ == if exists {
                "✅ API keys file deleted: "@ + api_keys_path(dir)
            } else {
                "ℹ️ No API keys file found."@
            }
        },
        None => r == Err::<CleanPlan, AppError>(
            AppError::CredentialsError(CredentialsFault::HomeUnknown),
        ),
    }
}

/// What is to be done on disk to forget the pair. `home` is the home
/// directory, `None` where it is not known; `exists` says whether the
/// credentials file is there.
///
/// A file that is there is removed. One that is not is no error: nothing
/// is removed then, and the notice says so.
pub fn clean_credentials(home: Option<&str>, exists: bool) -> (r: Result<CleanPlan, AppError>)
    ensures
        cleans(text_of_str(home), exists, r),
{
    let file = match get_api_keys_path(home) {
        Ok(path) => path,
        Err(e) => {
            return Err(e);
        },
    };
    if exists {
        let mut notice = String::from_str("✅ API keys file deleted: ");
        notice.append(file.as_str());
        Ok(CleanPlan { file, remove: true, notice })
    } else {
        Ok(CleanPlan { file, remove: false, notice: String::from_str("ℹ️ No API keys file found.") })
    }
}

} // verus!
