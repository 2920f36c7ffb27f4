//! Requests: what a worker makes of the body that a client sent.
//!
//! A request is a JSON document with the URL of the page to render and the
//! settings for the document and for the page. A request that does not hold
//! up is turned down with a reply; any other becomes a job for the renderer.

use crate::helpers::decimal;
use crate::helpers::decimal_text;
use crate::json::document_view;
use crate::json::json_document;
use crate::json::lemma_object_view;
use crate::json::member_named;
use crate::json::members_of;
use crate::json::members_view;
use crate::json::JsonData;
use crate::json::JsonDataView;
use crate::json::JsonMember;
use crate::json::JsonMemberView;
use crate::json::JsonValue;
use crate::json::JsonValueView;
use crate::pdf::get_pdf_setting_value;
use crate::pdf::global_setting_type;
use crate::pdf::mismatch_message;
use crate::pdf::object_setting_type;
use crate::pdf::pdf_global_setting;
use crate::pdf::pdf_object_setting;
use crate::pdf::setting_text;
use crate::pdf::PdfSettingType;
use crate::protocol::client_reply_with_error;
use crate::protocol::reply_envelope;
use crate::protocol::REP_400_BAD_REQUEST;
use vstd::prelude::*;
use vstd::string::*;

verus! {

/// The scope of a render setting: the whole document or one page object.
#[derive(Debug, Clone, Copy, PartialEq, Eq, Structural)]
pub enum SettingScope {
    Global,
    Object,
}

/// The name of a scope, as error messages show it.
pub open spec fn scope_name(scope: SettingScope) -> Seq<char> {
    match scope {
        SettingScope::Global => "Global"@,
        SettingScope::Object => "Object"@,
    }
}

/// The declared type of `key` in the catalog of `scope`.
pub open spec fn catalog_type(scope: SettingScope, key: Seq<char>) -> Option<PdfSettingType> {
    match scope {
        SettingScope::Global => global_setting_type(key),
        SettingScope::Object => object_setting_type(key),
    }
}

/// Whether a member is in the catalog of `scope` and holds a value that is
/// not of the declared type.
pub open spec fn is_mismatch(scope: SettingScope, member: JsonMemberView) -> bool {
    match catalog_type(scope, member.key) {
        Some(value_type) => setting_text(value_type, member.value) is None,
        None => false,
    }
}

/// The outcome of checking the settings of one scope, member by member in
/// their order: a member whose key the catalog does not hold is passed over,
/// the first value that does not match its declared type fails the whole
/// check with its message, and every other member yields its key and text.
pub open spec fn checked_settings(scope: SettingScope, members: Seq<JsonMemberView>) -> Result<
    Seq<(Seq<char>, Seq<char>)>,
    Seq<char>,
>
    decreases members.len(),
{
    if members.len() == 0 {
        Ok(Seq::empty())
    } else {
        let last = members.last();
        match checked_settings(scope, members.drop_last()) {
            Err(message) => Err(message),
            Ok(settings) => match catalog_type(scope, last.key) {
                None => Ok(settings),
                Some(value_type) => match setting_text(value_type, last.value) {
                    Some(text) => Ok(settings.push((last.key, text))),
                    None => Err(
                        mismatch_message(scope_name(scope), last.key, value_type, last.value.text),
                    ),
                },
            },
        }
    }
}

/// A failed check of a prefix of the members fails the check of all of them,
/// with the same message.
pub proof fn lemma_checked_settings_fails_early(
    scope: SettingScope,
    members: Seq<JsonMemberView>,
    n: int,
)
    requires
        0 <= n <= members.len(),
        checked_settings(scope, members.take(n)) is Err,
    ensures
        checked_settings(scope, members) == checked_settings(scope, members.take(n)),
    decreases members.len() - n,
{
    if n < members.len() {
        assert(members.take(n + 1).drop_last() =~= members.take(n));
        lemma_checked_settings_fails_early(scope, members, n + 1);
    } else {
        assert(members.take(n) =~= members);
    }
}

/// A member whose key the catalog does not hold changes nothing in the
/// outcome of the check.
pub proof fn lemma_unknown_key_is_passed_over(
    scope: SettingScope,
    members: Seq<JsonMemberView>,
    member: JsonMemberView,
)
    requires
        catalog_type(scope, member.key) is None,
    ensures
        checked_settings(scope, members.push(member)) == checked_settings(scope, members),
{
    assert(members.push(member).drop_last() =~= members);
}

/// The check of the settings of one scope fails exactly when one of the
/// members is in the catalog and holds a value that is not of the declared
/// type.
pub proof fn lemma_settings_fail_on_a_mismatch(scope: SettingScope, members: Seq<JsonMemberView>)
    ensures
        checked_settings(scope, members) is Err <==> exists|i: int|
            0 <= i < members.len() && is_mismatch(scope, #[trigger] members[i]),
    decreases members.len(),
{
    if members.len() > 0 {
        let init = members.drop_last();
        lemma_settings_fail_on_a_mismatch(scope, init);
        if checked_settings(scope, init) is Err {
            let i = choose|i: int| 0 <= i < init.len() && is_mismatch(scope, #[trigger] init[i]);
            assert(is_mismatch(scope, members[i]));
        } else if is_mismatch(scope, members.last()) {
            assert(is_mismatch(scope, members[members.len() - 1]));
        } else {
            assert forall|i: int| 0 <= i < members.len() implies !is_mismatch(
                scope,
                #[trigger] members[i],
            ) by {
                if i < init.len() {
                    assert(init[i] == members[i]);
                }
            }
        }
    }
}

/// Checks the settings of one scope against its catalog.
pub fn check_settings(scope: SettingScope, members: &Vec<JsonMember>) -> (r: Result<
    Vec<(String, String)>,
    String,
>)
    ensures
        r is Ok <==> checked_settings(scope, members_view(members@)) is Ok,
        r matches Ok(settings) ==> Ok::<_, Seq<char>>(settings.deep_view()) == checked_settings(
            scope,
            members_view(members@),
        ),
        r matches Err(message) ==> Err::<Seq<(Seq<char>, Seq<char>)>, _>(message@)
            == checked_settings(scope, members_view(members@)),
{
    let ghost all = members_view(members@);
    let mut settings: Vec<(String, String)> = Vec::new();
    let mut i: usize = 0;
    assert(settings.deep_view() =~= Seq::empty());
    assert(all.take(0) =~= Seq::empty());
    while i < members.len()
        invariant
            i <= members.len(),
            all == members_view(members@),
            checked_settings(scope, all.take(i as int)) == Ok::<_, Seq<char>>(settings.deep_view()),
        decreases members.len() - i,
    {
        let member = &members[i];
        let found = match scope {
            SettingScope::Global => pdf_global_setting(member.key.as_str()),
            SettingScope::Object => pdf_object_setting(member.key.as_str()),
        };
        proof {
            assert(all.take(i + 1).drop_last() =~= all.take(i as int));
            assert(all.take(i + 1).last() == member@);
        }
        match found {
            Some(setting) => match get_pdf_setting_value(&setting, &member.value) {
                Ok(text) => {
                    let ghost before = settings.deep_view();
                    settings.push((member.key.clone(), text));
                    assert(settings.deep_view() =~= before.push((member.key@, text@)));
                },
                Err(e) => {
                    proof {
                        lemma_checked_settings_fails_early(scope, all, i + 1);
                    }
                    return Err(e.details);
                },
            },
            None => {},
        }
        i += 1;
    }
    assert(all.take(i as int) =~= all);
    Ok(settings)
}

/// The normalised form that `url::Url::parse` gives a text; nothing where it
/// reports an error.
pub uninterp spec fn normalized_url(text: Seq<char>) -> Option<Seq<char>>;

/// `url::Url::parse`, then `Url::as_str` on what it read: the result is a
/// function of the text alone, which is all that is claimed of it.
#[verifier::external_body]
pub(crate) fn url_parse(text: &str) -> (url: Option<String>)
    ensures
        url is Some <==> normalized_url(text@) is Some,
        url matches Some(u) ==> Some(u@) == normalized_url(text@),
{
    match url::Url::parse(text) {
        Ok(url) => Some(url.as_str().to_string()),
        Err(_) => None,
    }
}

/// What the renderer is asked to do for one request.
#[derive(Debug)]
pub struct RenderJob {
    /// The page to render, in normalised form.
    pub url: String,
    /// The name of the file to write in the output directory.
    pub filename: String,
    /// The document-wide settings to apply, in order.
    pub global: Vec<(String, String)>,
    /// The page-object settings to apply, in order.
    pub object: Vec<(String, String)>,
}

/// A `RenderJob` as mathematical values.
pub struct RenderJobView {
    pub url: Seq<char>,
    pub filename: Seq<char>,
    pub global: Seq<(Seq<char>, Seq<char>)>,
    pub object: Seq<(Seq<char>, Seq<char>)>,
}

impl View for RenderJob {
    type V = RenderJobView;

    open spec fn view(&self) -> RenderJobView {
        RenderJobView {
            url: self.url@,
            filename: self.filename@,
            global: self.global.deep_view(),
            object: self.object.deep_view(),
        }
    }
}

/// What a worker does with a request: reply at once, or render first.
#[derive(Debug)]
pub enum RequestPlan {
    Reply(Vec<String>),
    Render(RenderJob),
}

/// A `RequestPlan` as mathematical values.
pub enum RequestPlanView {
    Reply(Seq<Seq<char>>),
    Render(RenderJobView),
}

impl View for RequestPlan {
    type V = RequestPlanView;

    open spec fn view(&self) -> RequestPlanView {
        match self {
            RequestPlan::Reply(envelope) => RequestPlanView::Reply(envelope.deep_view()),
            RequestPlan::Render(job) => RequestPlanView::Render(job@),
        }
    }
}

/// The name of the file that worker `id` writes for the request `uid`.
pub open spec fn request_filename(id: u32, uid: u64) -> Seq<char> {
    "req-"@ + decimal(id as nat) + "-"@ + decimal(uid as nat) + ".pdf"@
}

/// Builds the name of the file that worker `id` writes for the request `uid`.
pub fn request_file(id: u32, uid: u64) -> (name: String)
    ensures
        name@ == request_filename(id, uid),
{
    let mut name = String::from_str("req-");
    name.append(decimal_text(id as u64).as_str());
    name.append("-");
    name.append(decimal_text(uid).as_str());
    name.append(".pdf");
    name
}

/// The text of the `url` member of a request, where it has one that is a
/// string.
pub open spec fn requested_url(payload: JsonValueView) -> Option<Seq<char>> {
    match member_named(payload, "url"@) {
        Some(value) => match value.data {
            JsonDataView::Text(text) => Some(text),
            _ => None,
        },
        None => None,
    }
}

/// The members of the object that `payload` holds under `key`; none where it
/// holds no object there.
pub open spec fn settings_under(payload: JsonValueView, key: Seq<char>) -> Seq<JsonMemberView> {
    match member_named(payload, key) {
        Some(value) => members_of(value),
        None => Seq::empty(),
    }
}

/// The reply that turns a request down as malformed.
pub open spec fn rejection(client: Seq<char>, message: Seq<char>) -> RequestPlanView {
    RequestPlanView::Reply(reply_envelope(client, REP_400_BAD_REQUEST@, message))
}

/// What worker `id` does with the request of `client`, given the document
/// that its body was parsed to, the outcome of parsing its URL and the
/// identifier `uid` drawn for it. In this order: a body that did not parse, a
/// null document, a missing URL, a URL that did not parse and a setting of
/// the wrong type are each turned down with status 400; anything else is
/// rendered.
pub open spec fn planned_request(
    id: u32,
    client: Seq<char>,
    document: Option<JsonValueView>,
    url: Option<Seq<char>>,
    uid: u64,
) -> RequestPlanView {
    match document {
        None => rejection(client, "Cannot parse request as JSON"@),
        Some(payload) => if payload.data is Null {
            rejection(client, "Payload cannot be null"@)
        } else if requested_url(payload) is None {
            rejection(client, "Field 'url' is missing in request payload: "@ + payload.text)
        } else {
            match url {
                None => rejection(client, "Cannot parse URL: "@ + payload.text),
                Some(target) => match checked_settings(
                    SettingScope::Global,
                    settings_under(payload, "global"@),
                ) {
                    Err(message) => rejection(client, message),
                    Ok(global) => match checked_settings(
                        SettingScope::Object,
                        settings_under(payload, "object"@),
                    ) {
                        Err(message) => rejection(client, message),
                        Ok(object) => RequestPlanView::Render(
                            RenderJobView {
                                url: target,
                                filename: request_filename(id, uid),
                                global,
                                object,
                            },
                        ),
                    },
                },
            }
        },
    }
}

/// A request is turned down exactly when its body is no JSON or is null, its
/// URL is missing, is no string or does not parse, or one of its settings is
/// in its catalog and holds a value that is not of the declared type. Every
/// reply that turns a request down has the status of a bad request.
pub proof fn lemma_request_is_turned_down_on_these(
    id: u32,
    client: Seq<char>,
    document: Option<JsonValueView>,
    url: Option<Seq<char>>,
    uid: u64,
)
    ensures
        planned_request(id, client, document, url, uid) is Reply <==> match document {
            None => true,
            Some(payload) => payload.data is Null || requested_url(payload) is None || url is None
                || (exists|i: int|
                0 <= i < settings_under(payload, "global"@).len() && is_mismatch(
                    SettingScope::Global,
                    #[trigger] settings_under(payload, "global"@)[i],
                )) || (exists|i: int|
                0 <= i < settings_under(payload, "object"@).len() && is_mismatch(
                    SettingScope::Object,
                    #[trigger] settings_under(payload, "object"@)[i],
                )),
        },
        planned_request(id, client, document, url, uid) matches RequestPlanView::Reply(envelope)
            ==> envelope.len() == 5 && envelope[0] == client && envelope[2] == REP_400_BAD_REQUEST@,
{
    if let Some(payload) = document {
        lemma_settings_fail_on_a_mismatch(SettingScope::Global, settings_under(payload, "global"@));
        lemma_settings_fail_on_a_mismatch(SettingScope::Object, settings_under(payload, "object"@));
    }
}

/// The outcome of parsing the URL that a document asks for; nothing where
/// there is no document, or no URL in it.
pub open spec fn parsed_url(document: Option<JsonValueView>) -> Option<Seq<char>> {
    match document {
        Some(payload) => match requested_url(payload) {
            Some(text) => normalized_url(text),
            None => None,
        },
        None => None,
    }
}

fn rejected(client_id: &str, message: &str) -> (plan: RequestPlan)
    ensures
        plan@ == rejection(client_id@, message@),
{
    RequestPlan::Reply(client_reply_with_error(client_id, REP_400_BAD_REQUEST, message))
}

fn settings_of(scope: SettingScope, payload: &JsonValue, key: &str) -> (r: Result<
    Vec<(String, String)>,
    String,
>)
    ensures
        r is Ok <==> checked_settings(scope, settings_under(payload@, key@)) is Ok,
        r matches Ok(settings) ==> Ok::<_, Seq<char>>(settings.deep_view()) == checked_settings(
            scope,
            settings_under(payload@, key@),
        ),
        r matches Err(message) ==> Err::<Seq<(Seq<char>, Seq<char>)>, _>(message@)
            == checked_settings(scope, settings_under(payload@, key@)),
{
    match payload.member(key) {
        Some(value) => match &value.data {
            JsonData::Object(members) => {
                proof {
                    lemma_object_view(*value);
                }
                check_settings(scope, members)
            },
            _ => {
                let none: Vec<(String, String)> = Vec::new();
                assert(none.deep_view() =~= Seq::empty());
                Ok(none)
            },
        },
        None => {
            let none: Vec<(String, String)> = Vec::new();
            assert(none.deep_view() =~= Seq::empty());
            Ok(none)
        },
    }
}

/// Decides what to do with a request, given what its body and its URL were
/// parsed to.
pub fn plan_request(
    id: u32,
    client_id: &str,
    document: &Option<JsonValue>,
    url: &Option<String>,
    message_id: u64,
) -> (plan: RequestPlan)
    ensures
        plan@ == planned_request(
            id,
            client_id@,
            document_view(*document),
            match *url {
                Some(target) => Some(target@),
                None => None,
            },
            message_id,
        ),
{
    let payload = match document {
        Some(payload) => payload,
        None => {
            return rejected(client_id, "Cannot parse request as JSON");
        },
    };
    if let JsonData::Null = &payload.data {
        return rejected(client_id, "Payload cannot be null");
    }
    let wanted = match payload.member("url") {
        Some(value) => match &value.data {
            JsonData::Text(_) => true,
            _ => false,
        },
        None => false,
    };
    if !wanted {
        let mut message = String::from_str("Field 'url' is missing in request payload: ");
        message.append(payload.text.as_str());
        return rejected(client_id, message.as_str());
    }
    let target = match url {
        Some(target) => target,
        None => {
            let mut message = String::from_str("Cannot parse URL: ");
            message.append(payload.text.as_str());
            return rejected(client_id, message.as_str());
        },
    };
    let global = match settings_of(SettingScope::Global, payload, "global") {
        Ok(settings) => settings,
        Err(message) => {
            return rejected(client_id, message.as_str());
        },
    };
    let object = match settings_of(SettingScope::Object, payload, "object") {
        Ok(settings) => settings,
        Err(message) => {
            return rejected(client_id, message.as_str());
        },
    };
    RequestPlan::Render(
        RenderJob { url: target.clone(), filename: request_file(id, message_id), global, object },
    )
}

/// What a worker does with the request `body` of `client`: the plan for the
/// document and the URL that the body is parsed to.
pub open spec fn request_plan(id: u32, client: Seq<char>, body: Seq<char>, uid: u64) -> RequestPlanView {
    planned_request(id, client, json_document(body), parsed_url(json_document(body)), uid)
}

/// What a worker does with a request depends on the worker and on the
/// identifier drawn for it only in the name of the file: two plans for the
/// same request are the same reply, or render the same page with the same
/// settings.
pub proof fn lemma_plan_differs_only_in_filename(
    id: u32,
    uid: u64,
    other_id: u32,
    other_uid: u64,
    client: Seq<char>,
    body: Seq<char>,
)
    ensures
        match (request_plan(id, client, body, uid), request_plan(other_id, client, body, other_uid)) {
            (RequestPlanView::Reply(one), RequestPlanView::Reply(other)) => one == other,
            (RequestPlanView::Render(one), RequestPlanView::Render(other)) => one.url == other.url
                && one.global == other.global && one.object == other.object && one.filename
                == request_filename(id, uid) && other.filename == request_filename(
                other_id,
                other_uid,
            ),
            _ => false,
        },
{
}

} // verus!
