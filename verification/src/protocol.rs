//! The parameters and results of the language server protocol that the library exchanges.
use lsp_types::{DocumentSymbolResponse, InitializeResult, Url};
use serde_json::Value;
use vstd::prelude::*;

use crate::json;
use crate::json::{Json, JsonNumber};

verus! {

/// A URL of `lsp_types`, opaque to the verifier.
///
/// What it holds is given by [`url_text`].
#[verifier::external_type_specification]
#[verifier::external_body]
pub struct ExUrl(lsp_types::Url);

/// What a server answers to an initialization, opaque to the verifier.
#[verifier::external_type_specification]
#[verifier::external_body]
pub struct ExInitializeResult(lsp_types::InitializeResult);

/// What a server answers to a request for the symbols of a document, opaque to the verifier.
#[verifier::external_type_specification]
#[verifier::external_body]
pub struct ExDocumentSymbolResponse(lsp_types::DocumentSymbolResponse);

/// The text of `url`.
pub uninterp spec fn url_text(url: Url) -> Seq<char>;

/// The result of an initialization that `value` stands for, or what the error says that kept it
/// from being deserialized.
pub uninterp spec fn initialize_result_of(value: Json) -> Result<InitializeResult, Seq<char>>;

/// The symbols of a document that `value` stands for, or what the error says that kept them from
/// being deserialized.
pub uninterp spec fn document_symbols_of(value: Json) -> Result<DocumentSymbolResponse, Seq<char>>;

/// The registrations that the value `value` of registration params stands for, or what the error
/// says that kept them from being deserialized.
pub uninterp spec fn registrations_of(value: Json) -> Result<Seq<RegistrationView>, Seq<char>>;

/// The debug text of `symbols`, as `lsp_types` writes it.
pub uninterp spec fn document_symbols_debug_text(symbols: DocumentSymbolResponse) -> Seq<char>;

/// The debug text of the parameters of a notification that the document at `uri` was opened, as
/// `lsp_types` writes it.
pub uninterp spec fn did_open_debug_text(
    uri: Url,
    language_id: Seq<char>,
    version: i32,
    text: Seq<char>,
) -> Seq<char>;

/// The debug text of the parameters of a notification that the document at `uri` was closed, as
/// `lsp_types` writes it.
pub uninterp spec fn did_close_debug_text(uri: Url) -> Seq<char>;

/// The debug text of the parameters of a request for the symbols of the document at `uri`, as
/// `lsp_types` writes it.
pub uninterp spec fn document_symbol_debug_text(uri: Url) -> Seq<char>;

/// An item to transfer a text document from the client to the server.
#[derive(Debug, PartialEq)]
pub struct TextDocumentItem {
    /// The text document's URI.
    pub uri: Url,
    /// The text document's language identifier.
    pub language_id: String,
    /// The version number of this document.
    pub version: i32,
    /// The content of the opened text document.
    pub text: String,
}

/// Text documents are identified using a URI.
#[derive(Debug, PartialEq)]
pub struct TextDocumentIdentifier {
    /// The text document's URI.
    pub uri: Url,
}

/// The parameters of a notification that a document was opened.
#[derive(Debug, PartialEq)]
pub struct DidOpenTextDocumentParams {
    /// The document that was opened.
    pub text_document: TextDocumentItem,
}

/// The parameters of a notification that a document was closed.
#[derive(Debug, PartialEq)]
pub struct DidCloseTextDocumentParams {
    /// The document that was closed.
    pub text_document: TextDocumentIdentifier,
}

/// The parameters of a request for the symbols of a document.
///
/// Neither the progress of the work nor partial results are asked for.
#[derive(Debug, PartialEq)]
pub struct DocumentSymbolParams {
    /// The text document.
    pub text_document: TextDocumentIdentifier,
}

/// General parameters to register for a capability.
#[derive(Debug, PartialEq)]
pub struct Registration {
    /// The id used to register the request.
    pub id: String,
    /// The method / capability to register for.
    pub method: String,
    /// Options necessary for the registration.
    pub register_options: Option<Value>,
}

/// What a [`Registration`] holds.
pub struct RegistrationView {
    /// The id used to register the request.
    pub id: Seq<char>,
    /// The method / capability to register for.
    pub method: Seq<char>,
    /// Options necessary for the registration.
    pub register_options: Option<Json>,
}

/// The parameters of a request to register capabilities.
#[derive(Debug, PartialEq)]
pub struct RegistrationParams {
    /// The registrations.
    pub registrations: Vec<Registration>,
}

/// Which capabilities of text document synchronization a client has.
#[derive(Debug, PartialEq)]
pub struct TextDocumentSyncClientCapabilities {
    /// Whether text document synchronization supports dynamic registration.
    pub dynamic_registration: Option<bool>,
    /// The client supports sending will save notifications.
    pub will_save: Option<bool>,
    /// The client supports sending a will save request.
    pub will_save_wait_until: Option<bool>,
    /// The client supports did save notifications.
    pub did_save: Option<bool>,
}

/// Which capabilities of document symbols a client has.
#[derive(Debug, PartialEq)]
pub struct DocumentSymbolClientCapabilities {
    /// This capability supports dynamic registration.
    pub dynamic_registration: Option<bool>,
    /// The client supports hierarchical document symbols.
    pub hierarchical_document_symbol_support: Option<bool>,
}

/// Which capabilities of text documents a client has.
///
/// A client that has none of another kind declares none.
#[derive(Debug, PartialEq)]
pub struct TextDocumentClientCapabilities {
    /// Those of synchronization.
    pub synchronization: TextDocumentSyncClientCapabilities,
    /// Those of document symbols.
    pub document_symbol: DocumentSymbolClientCapabilities,
}

/// The parameters of a request to initialize a server.
#[derive(Debug, PartialEq)]
pub struct InitializeParams {
    /// The id of the process that started the server.
    pub process_id: Option<u32>,
    /// The root of the workspace.
    pub root_uri: Option<Url>,
    /// The capabilities of the client, all of which are of text documents.
    pub text_document: TextDocumentClientCapabilities,
}

/// The integer `number` as a JSON value.
pub open spec fn integer_json(number: int) -> Json {
    Json::Number(JsonNumber::Integer(number))
}

/// The boolean `flag` as a JSON value, where there is one.
pub open spec fn flag_json(flag: Option<bool>) -> Option<Json> {
    match flag {
        Some(flag) => Some(Json::Bool(flag)),
        None => None,
    }
}

/// `fields` with the field `name`, where it has a value.
pub open spec fn with_field(
    fields: Map<Seq<char>, Json>,
    name: Seq<char>,
    value: Option<Json>,
) -> Map<Seq<char>, Json> {
    match value {
        Some(value) => fields.insert(name, value),
        None => fields,
    }
}

impl TextDocumentItem {
    /// The JSON value of `self`.
    pub open spec fn json(self) -> Json {
        Json::Object(
            map![
                "uri"@ => Json::String(url_text(self.uri)),
                "languageId"@ => Json::String(self.language_id@),
                "version"@ => integer_json(self.version as int),
                "text"@ => Json::String(self.text@),
            ],
        )
    }
}

impl DidOpenTextDocumentParams {
    /// The JSON value of `self`.
    pub open spec fn json(self) -> Json {
        Json::Object(map!["textDocument"@ => self.text_document.json()])
    }
}

/// The JSON value of parameters that hold nothing but the document at `uri`.
pub open spec fn document_json(uri: Seq<char>) -> Json {
    Json::Object(map!["textDocument"@ => Json::Object(map!["uri"@ => Json::String(uri)])])
}

impl DidCloseTextDocumentParams {
    /// The JSON value of `self`.
    pub open spec fn json(self) -> Json {
        document_json(url_text(self.text_document.uri))
    }
}

impl DocumentSymbolParams {
    /// The JSON value of `self`.
    pub open spec fn json(self) -> Json {
        document_json(url_text(self.text_document.uri))
    }
}

impl View for Registration {
    type V = RegistrationView;

    open spec fn view(&self) -> RegistrationView {
        RegistrationView {
            id: self.id@,
            method: self.method@,
            register_options: match self.register_options {
                Some(options) => Some(json::json_of(options)),
                None => None,
            },
        }
    }
}

impl RegistrationView {
    /// The JSON value of `self`.
    pub open spec fn json(self) -> Json {
        Json::Object(
            with_field(
                map!["id"@ => Json::String(self.id), "method"@ => Json::String(self.method)],
                "registerOptions"@,
                self.register_options,
            ),
        )
    }
}

/// What each of `registrations` holds.
pub open spec fn registration_views(registrations: Seq<Registration>) -> Seq<RegistrationView> {
    registrations.map_values(|registration: Registration| registration@)
}

impl RegistrationParams {
    /// The JSON value of `self`.
    pub open spec fn json(self) -> Json {
        Json::Object(
            map![
                "registrations"@ => Json::Array(
                    registration_views(self.registrations@).map_values(
                        |registration: RegistrationView| registration.json(),
                    ),
                ),
            ],
        )
    }
}

impl TextDocumentSyncClientCapabilities {
    /// The JSON value of `self`.
    pub open spec fn json(self) -> Json {
        let fields = with_field(
            Map::empty(),
            "dynamicRegistration"@,
            flag_json(self.dynamic_registration),
        );
        let fields = with_field(fields, "willSave"@, flag_json(self.will_save));
        let fields = with_field(
            fields,
            "willSaveWaitUntil"@,
            flag_json(self.will_save_wait_until),
        );
        Json::Object(with_field(fields, "didSave"@, flag_json(self.did_save)))
    }
}

impl DocumentSymbolClientCapabilities {
    /// The JSON value of `self`.
    pub open spec fn json(self) -> Json {
        let fields = with_field(
            Map::empty(),
            "dynamicRegistration"@,
            flag_json(self.dynamic_registration),
        );
        Json::Object(
            with_field(
                fields,
                "hierarchicalDocumentSymbolSupport"@,
                flag_json(self.hierarchical_document_symbol_support),
            ),
        )
    }
}

impl InitializeParams {
    /// The JSON value of `self`.
    pub open spec fn json(self) -> Json {
        let text_document = Json::Object(
            map![
                "synchronization"@ => self.text_document.synchronization.json(),
                "documentSymbol"@ => self.text_document.document_symbol.json(),
            ],
        );
        Json::Object(
            map![
                "processId"@ => match self.process_id {
                    Some(process_id) => integer_json(process_id as int),
                    None => Json::Null,
                },
                "rootUri"@ => match self.root_uri {
                    Some(root_uri) => Json::String(url_text(root_uri)),
                    None => Json::Null,
                },
                "capabilities"@ => Json::Object(map!["textDocument"@ => text_document]),
            ],
        )
    }
}

/// Whether `result` is the value `value`.
pub open spec fn serializes_to(result: Result<Value, serde_json::Error>, value: Json) -> bool {
    result matches Ok(result) && json::json_of(result) == value
}

/// `<lsp_types::Url as Clone>::clone` gives the same URL again.
#[verifier::external_body]
pub(crate) fn clone_url(url: &Url) -> (clone: Url)
    ensures
        clone == *url,
{
    url.clone()
}

/// `<lsp_types::InitializeResult as Clone>::clone` gives the same result again.
#[verifier::external_body]
pub(crate) fn clone_initialize_result(result: &InitializeResult) -> (clone: InitializeResult)
    ensures
        clone == *result,
{
    result.clone()
}

/// `serde_json::to_value` of the unit value is `null`.
#[verifier::external_body]
pub(crate) fn unit_to_value() -> (value: Result<Value, serde_json::Error>)
    ensures
        serializes_to(value, Json::Null),
{
    serde_json::to_value(())
}

/// `serde_json::to_value` of `lsp_types::InitializeParams` is an object with the process id and the
/// root, `null` where there is none, and the capabilities.
///
/// Everything that the parameters here do not have is left out.
#[allow(deprecated)]
#[verifier::external_body]
pub(crate) fn initialize_params_to_value(params: &InitializeParams) -> (value: Result<
    Value,
    serde_json::Error,
>)
    ensures
        serializes_to(value, params.json()),
{
    let (sync, symbol) = (&params.text_document.synchronization, &params.text_document.document_symbol);
    let synchronization = lsp_types::TextDocumentSyncClientCapabilities {
        dynamic_registration: sync.dynamic_registration, will_save: sync.will_save,
        will_save_wait_until: sync.will_save_wait_until, did_save: sync.did_save };
    let document_symbol = lsp_types::DocumentSymbolClientCapabilities {
        dynamic_registration: symbol.dynamic_registration, symbol_kind: None, tag_support: None,
        hierarchical_document_symbol_support: symbol.hierarchical_document_symbol_support };
    let text_document = lsp_types::TextDocumentClientCapabilities {
        synchronization: Some(synchronization), document_symbol: Some(document_symbol), ..Default::default() };
    let capabilities = lsp_types::ClientCapabilities { text_document: Some(text_document), ..Default::default() };
    serde_json::to_value(lsp_types::InitializeParams {
        process_id: params.process_id, root_path: None, root_uri: params.root_uri.clone(),
        initialization_options: None, capabilities, trace: None, workspace_folders: None,
        client_info: None, locale: None,
    })
}

/// `serde_json::to_value` of `lsp_types::DidOpenTextDocumentParams` is an object with the document.
#[verifier::external_body]
pub(crate) fn did_open_to_value(params: &DidOpenTextDocumentParams) -> (value: Result<
    Value,
    serde_json::Error,
>)
    ensures
        serializes_to(value, params.json()),
{
    let doc = &params.text_document;
    let text_document = lsp_types::TextDocumentItem::new(
        doc.uri.clone(),
        doc.language_id.clone(),
        doc.version,
        doc.text.clone(),
    );
    serde_json::to_value(lsp_types::DidOpenTextDocumentParams { text_document })
}

/// `serde_json::to_value` of `lsp_types::DidCloseTextDocumentParams` is an object with the document.
#[verifier::external_body]
pub(crate) fn did_close_to_value(params: &DidCloseTextDocumentParams) -> (value: Result<
    Value,
    serde_json::Error,
>)
    ensures
        serializes_to(value, document_json(url_text(params.text_document.uri))),
{
    let text_document = lsp_types::TextDocumentIdentifier::new(params.text_document.uri.clone());
    serde_json::to_value(lsp_types::DidCloseTextDocumentParams { text_document })
}

/// `serde_json::to_value` of `lsp_types::DocumentSymbolParams` is an object with the document.
///
/// The tokens of progress and of partial results are left out, since there are none.
#[verifier::external_body]
pub(crate) fn document_symbol_to_value(params: &DocumentSymbolParams) -> (value: Result<
    Value,
    serde_json::Error,
>)
    ensures
        serializes_to(value, document_json(url_text(params.text_document.uri))),
{
    let text_document = lsp_types::TextDocumentIdentifier::new(params.text_document.uri.clone());
    serde_json::to_value(lsp_types::DocumentSymbolParams {
        text_document,
        work_done_progress_params: Default::default(),
        partial_result_params: Default::default(),
    })
}

/// `serde_json::to_value` of `lsp_types::RegistrationParams` is an object with the registrations,
/// in order.
#[verifier::external_body]
pub(crate) fn registration_params_to_value(params: &RegistrationParams) -> (value: Result<
    Value,
    serde_json::Error,
>)
    ensures
        serializes_to(value, params.json()),
{
    let registrations = params.registrations.iter().map(|registration| lsp_types::Registration {
        id: registration.id.clone(),
        method: registration.method.clone(),
        register_options: registration.register_options.clone(),
    }).collect();
    serde_json::to_value(lsp_types::RegistrationParams { registrations })
}

/// `serde_json::from_value` into `lsp_types::InitializeResult` is a function of what the value
/// holds.
#[verifier::external_body]
pub(crate) fn initialize_result_from_value(value: Value) -> (result: Result<
    InitializeResult,
    serde_json::Error,
>)
    ensures
        match (result, initialize_result_of(json::json_of(value))) {
            (Ok(result), Ok(held)) => result == held,
            (Err(error), Err(text)) => json::error_text(error) == text,
            _ => false,
        },
{
    serde_json::from_value(value)
}

/// `serde_json::from_value` into `lsp_types::DocumentSymbolResponse` is a function of what the value
/// holds.
#[verifier::external_body]
pub(crate) fn document_symbols_from_value(value: Value) -> (symbols: Result<
    DocumentSymbolResponse,
    serde_json::Error,
>)
    ensures
        match (symbols, document_symbols_of(json::json_of(value))) {
            (Ok(symbols), Ok(held)) => symbols == held,
            (Err(error), Err(text)) => json::error_text(error) == text,
            _ => false,
        },
{
    serde_json::from_value(value)
}

/// `serde_json::from_value` into `lsp_types::RegistrationParams` is a function of what the value
/// holds.
#[verifier::external_body]
pub(crate) fn registrations_from_value(value: Value) -> (registrations: Result<
    Vec<Registration>,
    serde_json::Error,
>)
    ensures
        match (registrations, registrations_of(json::json_of(value))) {
            (Ok(registrations), Ok(held)) => registration_views(registrations@) == held,
            (Err(error), Err(text)) => json::error_text(error) == text,
            _ => false,
        },
{
    let params = serde_json::from_value::<lsp_types::RegistrationParams>(value)?;
    Ok(params.registrations.into_iter().map(|registration| Registration {
        id: registration.id,
        method: registration.method,
        register_options: registration.register_options,
    }).collect())
}

/// The `Debug` form of `lsp_types::DocumentSymbolResponse` is a function of the response.
#[verifier::external_body]
pub(crate) fn document_symbols_to_debug_text(symbols: &DocumentSymbolResponse) -> (text: String)
    ensures
        text@ == document_symbols_debug_text(*symbols),
{
    format!("{:?}", symbols)
}

/// The `Debug` form of `lsp_types::DidOpenTextDocumentParams` is a function of the parameters.
#[verifier::external_body]
pub(crate) fn did_open_to_debug_text(params: &DidOpenTextDocumentParams) -> (text: String)
    ensures
        text@ == did_open_debug_text(
            params.text_document.uri,
            params.text_document.language_id@,
            params.text_document.version,
            params.text_document.text@,
        ),
{
    let doc = &params.text_document;
    let text_document = lsp_types::TextDocumentItem::new(
        doc.uri.clone(),
        doc.language_id.clone(),
        doc.version,
        doc.text.clone(),
    );
    format!("{:?}", lsp_types::DidOpenTextDocumentParams { text_document })
}

/// The `Debug` form of `lsp_types::DidCloseTextDocumentParams` is a function of the parameters.
#[verifier::external_body]
pub(crate) fn did_close_to_debug_text(params: &DidCloseTextDocumentParams) -> (text: String)
    ensures
        text@ == did_close_debug_text(params.text_document.uri),
{
    let text_document = lsp_types::TextDocumentIdentifier::new(params.text_document.uri.clone());
    format!("{:?}", lsp_types::DidCloseTextDocumentParams { text_document })
}

/// The `Debug` form of `lsp_types::DocumentSymbolParams` is a function of the parameters.
#[verifier::external_body]
pub(crate) fn document_symbol_to_debug_text(params: &DocumentSymbolParams) -> (text: String)
    ensures
        text@ == document_symbol_debug_text(params.text_document.uri),
{
    let text_document = lsp_types::TextDocumentIdentifier::new(params.text_document.uri.clone());
    let params = lsp_types::DocumentSymbolParams {
        text_document,
        work_done_progress_params: Default::default(),
        partial_result_params: Default::default(),
    };
    format!("{:?}", params)
}

} // verus!
