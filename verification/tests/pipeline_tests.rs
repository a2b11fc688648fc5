use shared_kit::middleware_pipeline::{
    AppendStage, LabelContext, LabelTerminal, MiddlewarePipeline,
};

#[test]
fn test_pipeline_execution() {
    let pipeline = MiddlewarePipeline::new().add(AppendStage {
        suffix: " -> TestMiddleware".to_string(),
    }).finalize(LabelTerminal { label: "Terminal".to_string() });

    let result: String = pipeline.run(LabelContext {});
    assert_eq!(result, "Terminal -> TestMiddleware");
}

#[test]
fn test_optional_middleware() {
    let pipeline = MiddlewarePipeline::new()
        .add_option(Some(AppendStage { suffix: " -> TestMiddleware".to_string() }))
        .add_option(None)
        .finalize(LabelTerminal { label: "Terminal".to_string() });

    let result: String = pipeline.run(LabelContext {});
    assert_eq!(result, "Terminal -> TestMiddleware");
}

#[test]
fn test_empty_pipeline() {
    let pipeline = MiddlewarePipeline::<AppendStage>::new().finalize(LabelTerminal {
        label: "Terminal".to_string(),
    });

    let result: String = pipeline.run(LabelContext {});
    assert_eq!(result, "Terminal");
}

#[test]
fn test_pipeline_first_registered_outermost() {
    let pipeline = MiddlewarePipeline::new()
        .add(AppendStage { suffix: " -> first".to_string() })
        .add(AppendStage { suffix: " -> second".to_string() })
        .finalize(LabelTerminal { label: "Terminal".to_string() });

    let result: String = pipeline.run(LabelContext {});
    assert_eq!(result, "Terminal -> second -> first");
}
