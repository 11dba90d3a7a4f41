//! The answers of the control plane: which status and which text a request
//! gets, given what the database said.

use crate::auth::Access;
use crate::models::{ApiResponse, AuthResponse, User};
use crate::release::EntityKind;
use vstd::prelude::*;
use vstd::string::*;

verus! {

/// An answer to a request that changes a watch list: a status code and a
/// text, sent as `{"message": ..}` on success and as `{"error": ..}`
/// otherwise.
#[derive(Debug)]
pub struct Reply {
    pub status: u16,
    pub is_error: bool,
    pub text: String,
}

/// The mathematical view of [`Reply`].
pub ghost struct ReplyView {
    pub status: u16,
    pub is_error: bool,
    pub text: Seq<char>,
}

impl View for Reply {
    type V = ReplyView;

    open spec fn view(&self) -> ReplyView {
        ReplyView { status: self.status, is_error: self.is_error, text: self.text@ }
    }
}

impl DeepView for Reply {
    type V = ReplyView;

    open spec fn deep_view(&self) -> ReplyView {
        self@
    }
}

/// How a kind of entity is called in an answer.
pub open spec fn label(kind: EntityKind) -> Seq<char> {
    match kind {
        EntityKind::GitHubRepo => "GitHub repository "@,
        EntityKind::DockerRepo => "Docker repository "@,
    }
}

/// An error answer.
pub open spec fn failure(status: u16, text: Seq<char>) -> ReplyView {
    ReplyView { status, is_error: true, text }
}

/// The answer to a request without a repository: 400.
pub open spec fn field_check(repo: Seq<char>) -> Option<ReplyView> {
    if repo.len() == 0 {
        Some(failure(400, "The 'repo' field is required."@))
    } else {
        None
    }
}

/// The answer once a failed database call has said `error`. For a GitHub
/// repository that is about to be added the text is withheld.
pub open spec fn database_failure(withheld: bool, error: Seq<char>) -> ReplyView {
    if withheld {
        failure(500, "An internal server error occurred."@)
    } else {
        failure(500, "Database error: "@ + error)
    }
}

/// What stands in the way of adding `repo`, of which the list holds `known`
/// entries: 409 where it holds one already, 500 where the list could not be
/// asked, nothing otherwise.
pub open spec fn addition_check(
    kind: EntityKind,
    repo: Seq<char>,
    known: Result<i64, Seq<char>>,
) -> Option<ReplyView> {
    match known {
        Ok(count) => if count > 0 {
            Some(failure(409, label(kind) + repo + " is already in the database."@))
        } else {
            None
        },
        Err(error) => Some(database_failure(kind == EntityKind::GitHubRepo, error)),
    }
}

/// What stands in the way of removing `repo`: 404 where the list does not
/// hold it, 500 where the list could not be asked, nothing otherwise.
pub open spec fn removal_check(
    kind: EntityKind,
    repo: Seq<char>,
    known: Result<i64, Seq<char>>,
) -> Option<ReplyView> {
    match known {
        Ok(count) => if count == 0 {
            Some(failure(404, label(kind) + repo + " is not in the database."@))
        } else {
            None
        },
        Err(error) => Some(database_failure(false, error)),
    }
}

/// The answer once the change was tried: 200 and what was done, or 500.
pub open spec fn change_reply(
    kind: EntityKind,
    repo: Seq<char>,
    done: Seq<char>,
    changed: Result<(), Seq<char>>,
) -> ReplyView {
    match changed {
        Ok(_) => ReplyView { status: 200, is_error: false, text: label(kind) + repo + done },
        Err(error) => database_failure(false, error),
    }
}

/// The view of the outcome of a database call.
pub open spec fn said<T>(outcome: Result<T, String>) -> Result<T, Seq<char>> {
    match outcome {
        Ok(value) => Ok(value),
        Err(error) => Err(error@),
    }
}

fn label_text(kind: EntityKind) -> (text: String)
    ensures
        text@ == label(kind),
{
    match kind {
        EntityKind::GitHubRepo => "GitHub repository ".to_owned(),
        EntityKind::DockerRepo => "Docker repository ".to_owned(),
    }
}

fn sentence(kind: EntityKind, repo: &str, rest: &str) -> (text: String)
    ensures
        text@ == label(kind) + repo@ + rest@,
{
    let mut text = label_text(kind);
    text.append(repo);
    text.append(rest);
    text
}

fn database_error(withheld: bool, error: &str) -> (reply: Reply)
    ensures
        reply@ == database_failure(withheld, error@),
{
    if withheld {
        Reply { status: 500, is_error: true, text: "An internal server error occurred.".to_owned() }
    } else {
        let mut text = "Database error: ".to_owned();
        text.append(error);
        Reply { status: 500, is_error: true, text }
    }
}

/// Refuses a request that names no repository.
pub fn check_repo_field(repo: &str) -> (refusal: Option<Reply>)
    ensures
        refusal.deep_view() == field_check(repo@),
{
    if repo.unicode_len() == 0 {
        Some(Reply { status: 400, is_error: true, text: "The 'repo' field is required.".to_owned() })
    } else {
        None
    }
}

/// Decides whether `repo` can be added, given how many entries of it the
/// watch list holds.
pub fn before_adding(kind: EntityKind, repo: &str, known: &Result<i64, String>) -> (refusal: Option<
    Reply,
>)
    ensures
        refusal.deep_view() == addition_check(kind, repo@, said(*known)),
{
    match known {
        Ok(count) => {
            if *count > 0 {
                Some(
                    Reply {
                        status: 409,
                        is_error: true,
                        text: sentence(kind, repo, " is already in the database."),
                    },
                )
            } else {
                None
            }
        },
        Err(error) => Some(database_error(kind == EntityKind::GitHubRepo, error.as_str())),
    }
}

/// Answers a request to add `repo` once the insertion was tried.
pub fn after_adding(kind: EntityKind, repo: &str, added: &Result<(), String>) -> (reply: Reply)
    ensures
        reply@ == change_reply(
            kind,
            repo@,
            " has been added to watched repositories."@,
            said(*added),
        ),
{
    match added {
        Ok(_) => Reply {
            status: 200,
            is_error: false,
            text: sentence(kind, repo, " has been added to watched repositories."),
        },
        Err(error) => database_error(false, error.as_str()),
    }
}

/// Decides whether `repo` can be removed, given how many entries of it the
/// watch list holds.
pub fn before_deleting(kind: EntityKind, repo: &str, known: &Result<i64, String>) -> (refusal:
    Option<Reply>)
    ensures
        refusal.deep_view() == removal_check(kind, repo@, said(*known)),
{
    match known {
        Ok(count) => {
            if *count == 0 {
                Some(
                    Reply {
                        status: 404,
                        is_error: true,
                        text: sentence(kind, repo, " is not in the database."),
                    },
                )
            } else {
                None
            }
        },
        Err(error) => Some(database_error(false, error.as_str())),
    }
}

/// Answers a request to remove `repo` once the deletion was tried.
pub fn after_deleting(kind: EntityKind, repo: &str, deleted: &Result<(), String>) -> (reply: Reply)
    ensures
        reply@ == change_reply(
            kind,
            repo@,
            " has been removed from watched repositories."@,
            said(*deleted),
        ),
{
    match deleted {
        Ok(_) => Reply {
            status: 200,
            is_error: false,
            text: sentence(kind, repo, " has been removed from watched repositories."),
        },
        Err(error) => database_error(false, error.as_str()),
    }
}

/// An answer of the account and settings endpoints: a status code and the
/// envelope to send with it.
#[derive(Debug)]
pub struct Answer<T> {
    pub status: u16,
    pub response: ApiResponse<T>,
}

impl<T> Answer<T> {
    /// Whether this is the refusal with `status` and `message`.
    pub open spec fn refuses(self, status: u16, message: Seq<char>) -> bool {
        &&& self.status == status
        &&& !self.response.success
        &&& self.response.message@ == message
        &&& self.response.data is None
    }

    /// Whether this is the success with `status`, `message` and `data`.
    pub open spec fn grants(self, status: u16, message: Seq<char>, data: Option<T>) -> bool {
        &&& self.status == status
        &&& self.response.success
        &&& self.response.message@ == message
        &&& self.response.data == data
    }
}

fn refusal<T>(status: u16, message: &str) -> (answer: Answer<T>)
    ensures
        answer.refuses(status, message@),
{
    Answer { status, response: ApiResponse { success: false, message: message.to_owned(), data: None } }
}

fn success<T>(status: u16, message: &str, data: Option<T>) -> (answer: Answer<T>)
    ensures
        answer.grants(status, message@, data),
{
    Answer { status, response: ApiResponse { success: true, message: message.to_owned(), data } }
}

/// Answers a login. `verified` is how the check of the password ended
/// (`None` where the database failed), `user` the account found, `token`
/// the token of the session opened for it.
pub fn login(verified: Option<bool>, user: Option<User>, token: Option<String>) -> (answer: Answer<
    AuthResponse,
>)
    ensures
        match (verified, user, token) {
            (None, _, _) => answer.refuses(500, "Internal server error"@),
            (Some(false), _, _) => answer.refuses(401, "Incorrect username or password"@),
            (Some(true), None, _) => answer.refuses(404, "User not found"@),
            (Some(true), Some(_), None) => answer.refuses(500, "Error creating session"@),
            (Some(true), Some(user), Some(token)) => answer.grants(
                200,
                "Login successful"@,
                Some(AuthResponse { token, user }),
            ),
        },
{
    match verified {
        None => refusal(500, "Internal server error"),
        Some(false) => refusal(401, "Incorrect username or password"),
        Some(true) => match user {
            None => refusal(404, "User not found"),
            Some(user) => match token {
                None => refusal(500, "Error creating session"),
                Some(token) => success(200, "Login successful", Some(AuthResponse { token, user })),
            },
        },
    }
}

/// Answers a registration. `taken` says whether the name was in use,
/// `created` whether the account was stored, `user` is the account read
/// back, `token` the token of the session opened for it.
pub fn register(taken: bool, created: bool, user: Option<User>, token: Option<String>) -> (answer:
    Answer<AuthResponse>)
    ensures
        if taken {
            answer.refuses(409, "A user with this name already exists"@)
        } else if !created {
            answer.refuses(500, "Error creating user"@)
        } else {
            match (user, token) {
                (None, _) => answer.refuses(500, "Error retrieving user"@),
                (Some(_), None) => answer.refuses(500, "Error creating session"@),
                (Some(user), Some(token)) => answer.grants(
                    201,
                    "Registration successful"@,
                    Some(AuthResponse { token, user }),
                ),
            }
        },
{
    if taken {
        refusal(409, "A user with this name already exists")
    } else if !created {
        refusal(500, "Error creating user")
    } else {
        match user {
            None => refusal(500, "Error retrieving user"),
            Some(user) => match token {
                None => refusal(500, "Error creating session"),
                Some(token) => success(
                    201,
                    "Registration successful",
                    Some(AuthResponse { token, user }),
                ),
            },
        }
    }
}

/// Answers a logout, given whether the session was deleted.
pub fn logout(deleted: bool) -> (answer: Answer<()>)
    ensures
        deleted ==> answer.grants(200, "Logout successful"@, None),
        !deleted ==> answer.refuses(500, "Error during logout"@),
{
    if deleted {
        success(200, "Logout successful", None)
    } else {
        refusal(500, "Error during logout")
    }
}

/// Turns away a request whose session does not grant access.
pub fn gate<T>(access: Access) -> (answer: Option<Answer<T>>)
    ensures
        match access {
            Access::Granted => answer is None,
            Access::Expired => answer matches Some(a) && a.refuses(401, "Session expired"@),
            Access::Denied => answer matches Some(a) && a.refuses(401, "Unauthorized"@),
        },
{
    match access {
        Access::Granted => None,
        Access::Expired => Some(refusal(401, "Session expired")),
        Access::Denied => Some(refusal(401, "Unauthorized")),
    }
}

/// Answers a request for the settings. `found` is what the database gave:
/// `None` where it failed, `Some(None)` where it holds no settings.
pub fn get_settings<T>(access: Access, found: Option<Option<T>>) -> (answer: Answer<T>)
    ensures
        match (access, found) {
            (Access::Expired, _) => answer.refuses(401, "Session expired"@),
            (Access::Denied, _) => answer.refuses(401, "Unauthorized"@),
            (Access::Granted, None) => answer.refuses(500, "Error retrieving settings"@),
            (Access::Granted, Some(None)) => answer.refuses(404, "No settings found"@),
            (Access::Granted, Some(Some(settings))) => answer.grants(
                200,
                "Settings retrieved successfully"@,
                Some(settings),
            ),
        },
{
    match gate(access) {
        Some(answer) => answer,
        None => match found {
            None => refusal(500, "Error retrieving settings"),
            Some(None) => refusal(404, "No settings found"),
            Some(Some(settings)) => success(200, "Settings retrieved successfully", Some(settings)),
        },
    }
}

/// Answers a change of the settings, given whether it was stored.
pub fn update_settings(access: Access, stored: bool) -> (answer: Answer<()>)
    ensures
        match access {
            Access::Expired => answer.refuses(401, "Session expired"@),
            Access::Denied => answer.refuses(401, "Unauthorized"@),
            Access::Granted => if stored {
                answer.grants(200, "Settings updated successfully"@, None)
            } else {
                answer.refuses(500, "Error updating settings"@)
            },
        },
{
    match gate(access) {
        Some(answer) => answer,
        None => {
            if stored {
                success(200, "Settings updated successfully", None)
            } else {
                refusal(500, "Error updating settings")
            }
        },
    }
}

/// One line of the list of the latest updates.
#[derive(Debug)]
pub struct UpdateInfo {
    pub date: String,
    pub repo: String,
    pub version: String,
    pub changelog: String,
}

/// The mathematical view of [`UpdateInfo`].
pub ghost struct UpdateInfoView {
    pub date: Seq<char>,
    pub repo: Seq<char>,
    pub version: Seq<char>,
    pub changelog: Seq<char>,
}

impl View for UpdateInfo {
    type V = UpdateInfoView;

    open spec fn view(&self) -> UpdateInfoView {
        UpdateInfoView {
            date: self.date@,
            repo: self.repo@,
            version: self.version@,
            changelog: self.changelog@,
        }
    }
}

/// What reading the latest updates from the version store gave.
#[derive(Debug)]
pub enum UpdatesRead {
    /// The rows that were read, latest first.
    Rows(Vec<UpdateInfo>),
    /// The query could not be prepared; the text says why.
    NotPrepared(String),
    /// The store could not be opened; the text says why.
    NotOpened(String),
}

/// The views of a list of updates, in order.
pub open spec fn update_views(updates: Seq<UpdateInfo>) -> Seq<UpdateInfoView> {
    Seq::new(updates.len(), |i: int| updates[i]@)
}

/// The one line that stands in for a list that could not be read.
pub open spec fn notice(now: Seq<char>, reason: Seq<char>) -> Seq<UpdateInfoView> {
    seq![UpdateInfoView { date: now, repo: "Erreur"@, version: "N/A"@, changelog: reason }]
}

/// The line that is shown while the store holds no update.
pub open spec fn sample(now: Seq<char>) -> Seq<UpdateInfoView> {
    seq![
        UpdateInfoView {
            date: now,
            repo: "BreizhHardware/ntfy_alerts"@,
            version: "2.0.2"@,
            changelog: "- Aucune mise à jour trouvée dans la base de données\n- Ceci est une donnée d'exemple"@,
        },
    ]
}

/// The list of the latest updates as it is shown: the rows that were read;
/// a sample where there are none; a notice where they could not be read.
pub open spec fn shown_updates(read: UpdatesRead, now: Seq<char>) -> Seq<UpdateInfoView> {
    match read {
        UpdatesRead::Rows(rows) => if rows.len() == 0 {
            sample(now)
        } else {
            update_views(rows@)
        },
        UpdatesRead::NotPrepared(error) => notice(
            now,
            "- Erreur lors de la préparation de la requête: "@ + error@,
        ),
        UpdatesRead::NotOpened(error) => notice(
            now,
            "- Erreur lors de l'ouverture de la base de données: "@ + error@,
        ),
    }
}

fn notice_of(now: String, start: &str, error: &str) -> (list: Vec<UpdateInfo>)
    ensures
        update_views(list@) == notice(now@, start@ + error@),
{
    let mut changelog = start.to_owned();
    changelog.append(error);
    let mut list: Vec<UpdateInfo> = Vec::new();
    list.push(
        UpdateInfo { date: now, repo: "Erreur".to_owned(), version: "N/A".to_owned(), changelog },
    );
    list
}

/// Makes the list of the latest updates to show at `now`.
pub fn get_latest_updates(read: UpdatesRead, now: String) -> (updates: Vec<UpdateInfo>)
    ensures
        update_views(updates@) == shown_updates(read, now@),
{
    match read {
        UpdatesRead::Rows(rows) => {
            if rows.len() == 0 {
                let mut list: Vec<UpdateInfo> = Vec::new();
                list.push(
                    UpdateInfo {
                        date: now,
                        repo: "BreizhHardware/ntfy_alerts".to_owned(),
                        version: "2.0.2".to_owned(),
                        changelog: "- Aucune mise à jour trouvée dans la base de données\n- Ceci est une donnée d'exemple".to_owned(),
                    },
                );
                list
            } else {
                rows
            }
        },
        UpdatesRead::NotPrepared(error) => notice_of(
            now,
            "- Erreur lors de la préparation de la requête: ",
            error.as_str(),
        ),
        UpdatesRead::NotOpened(error) => notice_of(
            now,
            "- Erreur lors de l'ouverture de la base de données: ",
            error.as_str(),
        ),
    }
}

} // verus!
