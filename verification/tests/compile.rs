use isymtope::compile::{compile_template, rendered_body, TemplateRequestMsg, TemplateResponseMsg};
use isymtope::store_nodes::{ExternReducerModuleNode, ExternReducerNode};

#[test]
fn compile_template_asks_for_the_root_route() {
    let plan = compile_template("<h1>hi</h1>", "http://localhost:3000");
    assert_eq!(plan.source, "<h1>hi</h1>");
    assert_eq!(
        plan.request,
        TemplateRequestMsg::RenderAppRoute(
            "http://localhost:3000".to_owned(),
            "/app.ism".to_owned(),
            "/app.ism".to_owned(),
            "/".to_owned()
        )
    );
}

#[test]
fn rendered_body_is_the_page_of_the_answer() {
    assert_eq!(
        rendered_body(TemplateResponseMsg::RenderComplete("<html></html>".to_owned())),
        "<html></html>"
    );
}

#[test]
fn extern_reducer_nodes_keep_their_names() {
    let module = ExternReducerModuleNode::new("reducers".to_owned());
    assert_eq!(module.name(), "reducers");
    let reducer = ExternReducerNode::new("todos".to_owned());
    assert_eq!(reducer.name(), "todos");
    assert_eq!(reducer.clone(), reducer);
}
