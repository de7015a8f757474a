//! Creating one page: the record, the request that carries it, and what the
//! service's answer means.

use crate::config::{ConfigModel, NotionConfig};
use crate::error::{CreationError, CreationErrorModel};
use crate::http::{
    answer_model, authorization, bearer, is_success, status_is_success, HttpMethod, HttpRequest,
    HttpResponse, RequestModel, ResponseModel,
};
use crate::json::page_json;
use crate::property_map::PropertyMap;
use crate::schema::{
    NotionPage, NotionPageProperty, NotionParent, NotionText, NotionTitle, PageModel,
    PagePropertyModel, ParentModel, TextModel, TitleModel,
};
use vstd::prelude::*;

verus! {

/// The one segment of a written title: a text segment whose content is
/// `title`, character for character.
pub open spec fn title_segment(title: Seq<char>) -> TitleModel {
    TitleModel { type_tag: "text"@, text: Some(TextModel { content: Some(title) }) }
}

/// The page that carries `title` into the configured database: the parent
/// names the database, and the only property is the configured title
/// property, holding an array of exactly one segment.
pub open spec fn title_page(config: ConfigModel, title: Seq<char>) -> PageModel {
    PageModel {
        parent: ParentModel { type_tag: "database_id"@, database_id: config.database_id },
        properties: seq![
            (
                config.title_property,
                PagePropertyModel {
                    type_tag: "title"@,
                    title: Some(seq![title_segment(title)]),
                },
            ),
        ],
    }
}

/// The address of the creation endpoint.
pub open spec fn pages_url() -> Seq<char> {
    "https://api.notion.com/v1/pages"@
}

/// The request that creates the page for `title`.
pub open spec fn creation_request(config: ConfigModel, title: Seq<char>) -> RequestModel {
    RequestModel {
        method: HttpMethod::Post,
        url: pages_url(),
        headers: seq![
            ("Authorization"@, bearer(config.access_secret)),
            ("Content-Type"@, "application/json"@),
        ],
        body: Some(page_json(title_page(config, title))),
    }
}

/// What an answer to a creation request means: any status in the success
/// range is success, whatever the body; any other status is a rejection
/// that carries status and body; no answer is a transport failure.
pub open spec fn creation_result(answer: Result<ResponseModel, Seq<char>>) -> Result<
    (),
    CreationErrorModel,
> {
    match answer {
        Ok(response) => if is_success(response.status) {
            Ok(())
        } else {
            Err(CreationErrorModel::Rejected { status: response.status, body: response.body })
        },
        Err(cause) => Err(CreationErrorModel::Transport(cause)),
    }
}

/// Model of the outcome of a creation.
pub open spec fn outcome_model(outcome: Result<(), CreationError>) -> Result<
    (),
    CreationErrorModel,
> {
    match outcome {
        Ok(()) => Ok(()),
        Err(error) => Err(error@),
    }
}

impl NotionPage {
    /// Builds the page that carries `title` into the configured database.
    /// The title is taken as it is: not trimmed, not shortened, and the
    /// empty title is a title too. The key of the title property is the
    /// configured one.
    pub fn with_title(config: &NotionConfig, title: &str) -> (page: NotionPage)
        ensures
            page@ == title_page(config@, title@),
    {
        let segment = NotionTitle {
            _type: "text".to_owned(),
            text: Some(NotionText { content: Some(title.to_owned()) }),
        };
        let mut segments: Vec<NotionTitle> = Vec::new();
        segments.push(segment);
        let property = NotionPageProperty { _type: "title".to_owned(), title: Some(segments) };
        let mut properties: PropertyMap<NotionPageProperty> = PropertyMap::new();
        properties.insert(config.title_property.clone(), property);
        let page = NotionPage {
            parent: NotionParent {
                _type: "database_id".to_owned(),
                database_id: config.database_id.clone(),
            },
            properties,
        };
        proof {
            let expected = title_page(config@, title@);
            assert(segments.deep_view() =~= seq![title_segment(title@)]);
            assert(page@.properties =~= expected.properties);
        }
        page
    }
}

/// Builds the request that creates one page titled `title`: a POST to the
/// creation endpoint, authorized with the configured token, whose body is
/// the JSON text of the page.
pub fn create_page_request(config: &NotionConfig, title: &str) -> (request: HttpRequest)
    ensures
        request@ == creation_request(config@, title@),
{
    let page = NotionPage::with_title(config, title);
    let mut headers: Vec<(String, String)> = Vec::new();
    headers.push(authorization(config.access_secret.as_str()));
    headers.push(("Content-Type".to_owned(), "application/json".to_owned()));
    let request = HttpRequest {
        method: HttpMethod::Post,
        url: "https://api.notion.com/v1/pages".to_owned(),
        headers,
        body: Some(page.to_json()),
    };
    proof {
        assert(request@.headers =~= creation_request(config@, title@).headers);
    }
    request
}

/// Reads the answer to a creation request. The body of a successful answer
/// is not looked at.
pub fn create_page_outcome(answer: Result<HttpResponse, String>) -> (outcome: Result<
    (),
    CreationError,
>)
    ensures
        outcome_model(outcome) == creation_result(answer_model(answer)),
{
    match answer {
        Ok(response) => {
            if status_is_success(response.status) {
                Ok(())
            } else {
                Err(CreationError::Rejected { status: response.status, body: response.body })
            }
        },
        Err(cause) => Err(CreationError::Transport(cause)),
    }
}

} // verus!
