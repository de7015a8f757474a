//! The directory of databases: the request that lists them, what the
//! service's answer means, and the numbered listing to choose from.
//!
//! Only the first page of the listing is read; a listing that says it has
//! more is not followed.

use crate::error::{text_or_error, ErrorModel, NotionError};
use crate::http::{
    answer_model, authorization, bearer, is_success, status_is_success, HttpMethod, HttpRequest,
    HttpResponse, RequestModel, ResponseModel,
};
use crate::schema::{
    display_title, DatabaseListModel, DatabaseModel, NotionDatabase, NotionDatabaseList,
};
use crate::text::{decimal_digits, write_decimal};
use vstd::prelude::*;

verus! {

/// The address of the listing endpoint.
pub open spec fn databases_url() -> Seq<char> {
    "https://api.notion.com/v1/databases"@
}

/// The request that lists the databases `token` gives access to.
pub open spec fn listing_request(token: Seq<char>) -> RequestModel {
    RequestModel {
        method: HttpMethod::Get,
        url: databases_url(),
        headers: seq![("Authorization"@, bearer(token))],
        body: None,
    }
}

/// Builds the request that lists the databases: a GET to the listing
/// endpoint, authorized with `token`. The token is sent as it is; whether it
/// is any good is for the service to say.
pub fn list_databases_request(token: &str) -> (request: HttpRequest)
    ensures
        request@ == listing_request(token@),
{
    let mut headers: Vec<(String, String)> = Vec::new();
    headers.push(authorization(token));
    let request = HttpRequest {
        method: HttpMethod::Get,
        url: "https://api.notion.com/v1/databases".to_owned(),
        headers,
        body: None,
    };
    proof {
        assert(request@.headers =~= listing_request(token@).headers);
    }
    request
}

/// What an answer to the listing request means: the body to decode where
/// the status is in the success range, a rejection with status and body
/// for any other status, a transport failure where no answer came.
pub open spec fn listing_body(answer: Result<ResponseModel, Seq<char>>) -> Result<
    Seq<char>,
    ErrorModel,
> {
    match answer {
        Ok(response) => if is_success(response.status) {
            Ok(response.body)
        } else {
            Err(ErrorModel::RemoteRejected { status: response.status, body: response.body })
        },
        Err(cause) => Err(ErrorModel::Transport(cause)),
    }
}

/// Reads the answer to the listing request and hands out the body that is
/// to be decoded.
pub fn list_databases_outcome(answer: Result<HttpResponse, String>) -> (body: Result<
    String,
    NotionError,
>)
    ensures
        text_or_error(body) == listing_body(answer_model(answer)),
{
    match answer {
        Ok(response) => {
            if status_is_success(response.status) {
                Ok(response.body)
            } else {
                Err(NotionError::RemoteRejected { status: response.status, body: response.body })
            }
        },
        Err(cause) => Err(NotionError::Transport(cause)),
    }
}

/// The databases of a decoded listing, in the order of the answer; a body
/// that did not decode is a malformed schema.
pub open spec fn listed(decoded: Option<DatabaseListModel>) -> Result<
    Seq<DatabaseModel>,
    ErrorModel,
> {
    match decoded {
        Some(list) => Ok(list.results),
        None => Err(ErrorModel::MalformedSchema),
    }
}

/// Model of a list of databases or the error in its place.
pub open spec fn databases_or_error(result: Result<Vec<NotionDatabase>, NotionError>) -> Result<
    Seq<DatabaseModel>,
    ErrorModel,
> {
    match result {
        Ok(databases) => Ok(databases.deep_view()),
        Err(error) => Err(error@),
    }
}

/// Takes the databases out of a decoded listing. `None` stands for a body
/// that could not be decoded.
pub fn listed_databases(decoded: Option<NotionDatabaseList>) -> (databases: Result<
    Vec<NotionDatabase>,
    NotionError,
>)
    ensures
        databases_or_error(databases) == listed(decoded.deep_view()),
{
    match decoded {
        Some(list) => Ok(list.results),
        None => Err(NotionError::MalformedSchema),
    }
}

/// Every database has a title to show.
pub open spec fn all_titled(databases: Seq<DatabaseModel>) -> bool {
    forall|i: int| 0 <= i < databases.len() ==> display_title(#[trigger] databases[i]) is Some
}

/// The first line of the listing.
pub open spec fn listing_header(count: nat) -> Seq<char> {
    "Found "@ + decimal_digits(count) + " databases, please choose one:"@
}

/// The line that offers the database at `index`, counted from zero.
pub open spec fn listing_line(index: nat, database: DatabaseModel) -> Seq<char> {
    "["@ + decimal_digits(index) + "] - "@ + display_title(database)->0 + " ("@ + database.id
        + ")"@
}

/// The listing: the header, then one line for each database in order.
pub open spec fn listing(databases: Seq<DatabaseModel>) -> Seq<Seq<char>> {
    Seq::new(
        databases.len() + 1,
        |i: int|
            if i == 0 {
                listing_header(databases.len())
            } else {
                listing_line((i - 1) as nat, databases[i - 1])
            },
    )
}

/// The listing of databases that all have a title to show; a malformed
/// schema where one has none.
pub open spec fn listing_or_error(databases: Seq<DatabaseModel>) -> Result<
    Seq<Seq<char>>,
    ErrorModel,
> {
    if all_titled(databases) {
        Ok(listing(databases))
    } else {
        Err(ErrorModel::MalformedSchema)
    }
}

/// Model of a list of lines or the error in its place.
pub open spec fn lines_or_error(result: Result<Vec<String>, NotionError>) -> Result<
    Seq<Seq<char>>,
    ErrorModel,
> {
    match result {
        Ok(lines) => Ok(lines.deep_view()),
        Err(error) => Err(error@),
    }
}

/// Renders the numbered listing of `databases`. A database without a title
/// to show makes the whole listing malformed: nothing is put in its place.
pub fn render_listing(databases: &Vec<NotionDatabase>) -> (lines: Result<Vec<String>, NotionError>)
    ensures
        lines_or_error(lines) == listing_or_error(databases.deep_view()),
{
    let ghost models = databases.deep_view();
    let mut lines: Vec<String> = Vec::new();
    let mut header = "Found ".to_owned();
    write_decimal(&mut header, databases.len());
    header.append(" databases, please choose one:");
    lines.push(header);
    let mut i: usize = 0;
    while i < databases.len()
        invariant
            i <= databases@.len(),
            models == databases.deep_view(),
            lines@.len() == i + 1,
            forall|j: int| 0 <= j < i ==> display_title(#[trigger] models[j]) is Some,
            forall|j: int| 0 <= j <= i ==> (#[trigger] lines@[j])@ == listing(models)[j],
        decreases databases@.len() - i,
    {
        let database = &databases[i];
        assert(database@ == models[i as int]);
        match database.title_text() {
            Ok(title) => {
                let mut line = "[".to_owned();
                write_decimal(&mut line, i);
                line.append("] - ");
                line.append(title.as_str());
                line.append(" (");
                line.append(database.id.as_str());
                line.append(")");
                lines.push(line);
            },
            Err(error) => {
                return Err(error);
            },
        }
        i += 1;
    }
    assert(lines.deep_view() =~= listing(models));
    Ok(lines)
}

} // verus!
