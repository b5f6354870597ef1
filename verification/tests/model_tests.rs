use expense_tracker::model::model_input;
use expense_tracker::model::ModelInputError;

#[test]
fn model_input_widens_ids_and_mask() {
    let input = model_input(&vec![101, 7592, 102], &vec![1, 1, 1]).ok().unwrap();
    assert_eq!(input.input_ids, vec![101i64, 7592, 102]);
    assert_eq!(input.attention_mask, vec![1i64, 1, 1]);
    let input = model_input(&vec![u32::MAX], &vec![0]).ok().unwrap();
    assert_eq!(input.input_ids, vec![u32::MAX as i64]);
    let input = model_input(&vec![], &vec![]).ok().unwrap();
    assert!(input.input_ids.is_empty());
}

#[test]
fn model_input_rejects_a_mask_of_another_length() {
    match model_input(&vec![101, 102], &vec![1]) {
        Err(ModelInputError::MaskLength) => {}
        _ => panic!("expected MaskLength"),
    }
}

fn word_tokenizer() -> tokenizers::Tokenizer {
    let json = r#"{"version":"1.0","truncation":null,"padding":null,"added_tokens":[],"normalizer":null,"pre_tokenizer":{"type":"Whitespace"},"post_processor":null,"decoder":null,"model":{"type":"WordLevel","vocab":{"[UNK]":0,"beli":1,"kopi":2,"25rb":3},"unk_token":"[UNK]"}}"#;
    json.parse::<tokenizers::Tokenizer>().unwrap()
}

#[test]
fn encode_message_gives_token_ids_and_mask() {
    let tokenizer = word_tokenizer();
    let input = expense_tracker::model::encode_message(&tokenizer, "beli kopi 25rb susu").ok().unwrap();
    assert_eq!(input.input_ids, vec![1i64, 2, 3, 0]);
    assert_eq!(input.attention_mask, vec![1i64, 1, 1, 1]);
    let input = expense_tracker::model::encode_message(&tokenizer, "").ok().unwrap();
    assert!(input.input_ids.is_empty());
    assert!(input.attention_mask.is_empty());
}
