use ecsr::command::{synthesize, SelectionContext};

fn context() -> SelectionContext {
    SelectionContext {
        profile: "dev".to_string(),
        cluster: "prod".to_string(),
        service: "web-api".to_string(),
        task: "abcd1234".to_string(),
        container: "nginx".to_string(),
        command: "bash".to_string(),
    }
}

#[test]
fn line_has_the_fixed_shape() {
    assert_eq!(
        synthesize(&context()),
        "aws --profile dev ecs execute-command --cluster prod \
         --container nginx --interactive --command bash --task abcd1234"
    );
}

#[test]
fn same_inputs_same_line() {
    assert_eq!(synthesize(&context()), synthesize(&context()));
}

#[test]
fn service_field_is_not_part_of_the_line() {
    let mut other = context();
    other.service = "another-service".to_string();
    assert_eq!(synthesize(&context()), synthesize(&other));
}

#[test]
fn no_escaping_is_applied() {
    let mut ctx = context();
    ctx.command = "echo \"hi there\"; ls -l".to_string();
    assert_eq!(
        synthesize(&ctx),
        "aws --profile dev ecs execute-command --cluster prod \
         --container nginx --interactive --command echo \"hi there\"; ls -l --task abcd1234"
    );
}

#[test]
fn whitespace_in_identifiers_passes_through() {
    let mut ctx = context();
    ctx.cluster = "pro d".to_string();
    assert_eq!(
        synthesize(&ctx),
        "aws --profile dev ecs execute-command --cluster pro d \
         --container nginx --interactive --command bash --task abcd1234"
    );
}
