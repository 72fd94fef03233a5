//! Compiling a template: what is asked of the renderer, and what is taken from its answer.
//!
//! Parsing and rendering are done by the caller. This module decides which request is
//! made for a template and which part of the response is the compiled page.

use vstd::prelude::*;

verus! {

/// A request to the renderer.
#[derive(Debug, PartialEq)]
pub enum TemplateRequestMsg {
    /// Render one route of an application: base URL, application name, template path
    /// and route path.
    RenderAppRoute(String, String, String, String),
}

/// The renderer's answer.
#[derive(Debug, PartialEq)]
pub enum TemplateResponseMsg {
    /// The rendered page.
    RenderComplete(String),
}

/// What compiling a template asks for: the source to parse, and the request to make
/// of the renderer once the source is parsed.
#[derive(Debug, PartialEq)]
pub struct CompilePlan {
    pub source: String,
    pub request: TemplateRequestMsg,
}

pub enum RequestModel {
    RenderAppRoute(Seq<char>, Seq<char>, Seq<char>, Seq<char>),
}

pub struct CompilePlanModel {
    pub source: Seq<char>,
    pub request: RequestModel,
}

impl View for TemplateRequestMsg {
    type V = RequestModel;

    open spec fn view(&self) -> RequestModel {
        match *self {
            TemplateRequestMsg::RenderAppRoute(base, app, template, path) => RequestModel::RenderAppRoute(
                base@,
                app@,
                template@,
                path@,
            ),
        }
    }
}

impl View for CompilePlan {
    type V = CompilePlanModel;

    open spec fn view(&self) -> CompilePlanModel {
        CompilePlanModel { source: self.source@, request: self.request@ }
    }
}

/// The request that compiles a template: the root route of the application `/app.ism`
/// under the given base URL.
pub open spec fn root_route_request(base_url: Seq<char>) -> RequestModel {
    RequestModel::RenderAppRoute(base_url, "/app.ism"@, "/app.ism"@, "/"@)
}

/// Plans the compilation of the template `src`: the source is parsed as it is, and the
/// root route of the application is rendered under `base_url`.
pub fn compile_template(src: &str, base_url: &str) -> (plan: CompilePlan)
    ensures
        plan@ == (CompilePlanModel { source: src@, request: root_route_request(base_url@) }),
{
    let app_name = "/app.ism";
    let template_path = "/app.ism";
    let path = "/";
    let request = TemplateRequestMsg::RenderAppRoute(
        base_url.to_owned(),
        app_name.to_owned(),
        template_path.to_owned(),
        path.to_owned(),
    );
    CompilePlan { source: src.to_owned(), request }
}

/// The compiled page in the renderer's answer.
pub fn rendered_body(response: TemplateResponseMsg) -> (body: String)
    ensures
        response matches TemplateResponseMsg::RenderComplete(page) && body@ == page@,
{
    match response {
        TemplateResponseMsg::RenderComplete(page) => page,
    }
}

} // verus!
