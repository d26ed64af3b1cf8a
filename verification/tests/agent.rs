use deepseek_agent::add;
use deepseek_agent::greet;

#[test]
fn it_works() {
    let result = deepseek_agent::add(2, 2);
    assert_eq!(result, 4);
}

#[test]
fn add_handles_large_operands() {
    assert_eq!(deepseek_agent::add(u64::MAX - 1, 1), u64::MAX);
    assert_eq!(deepseek_agent::add(0, 0), 0);
}

#[test]
fn greet_is_fixed() {
    assert_eq!(greet(), "Ollama Spicy AI agent is live!");
}

#[test]
fn greet_is_stable_across_calls() {
    assert_eq!(greet(), greet());
}
