use push_to_talk::text::{
    stream_punctuation, strip_punctuation, trailing_punctuation, trim_trailing_punctuation,
};

#[test]
fn strip_removes_punctuation_at_both_ends_and_inside() {
    assert_eq!(strip_punctuation("。你好，世界！"), "你好世界");
    assert_eq!(strip_punctuation("(hello), [world]!"), "hello world");
    assert_eq!(strip_punctuation("《书名》——作者…"), "书名作者");
    assert_eq!(strip_punctuation("‘引’“用”"), "引“用”");
}

#[test]
fn strip_removes_wide_chinese_punctuation() {
    assert_eq!(strip_punctuation("今天，天气：很好；是吗？是的！好、吧。"), "今天天气很好是吗是的好吧");
    assert_eq!(strip_punctuation("（括号）【方括号】《书》·点"), "括号方括号书点");
}

#[test]
fn strip_keeps_text_without_punctuation() {
    assert_eq!(strip_punctuation("hello world 123"), "hello world 123");
    assert_eq!(strip_punctuation(""), "");
    assert_eq!(strip_punctuation("。，！"), "");
}

#[test]
fn strip_twice_is_strip_once() {
    let once = strip_punctuation("a.b,c!d?e;f:g\"h'i");
    assert_eq!(once, "abcdefghi");
    assert_eq!(strip_punctuation(&once), once);
}

#[test]
fn trim_cuts_the_end_only() {
    assert_eq!(trim_trailing_punctuation("你好，世界！"), "你好，世界");
    assert_eq!(trim_trailing_punctuation("。开头，中间。。。"), "。开头，中间");
    assert_eq!(trim_trailing_punctuation("Hello, world?!"), "Hello, world");
    assert_eq!(trim_trailing_punctuation("wait...\"'"), "wait");
}

#[test]
fn trim_keeps_brackets_that_only_streaming_removes() {
    assert_eq!(trim_trailing_punctuation("text)"), "text)");
    assert_eq!(trim_trailing_punctuation("文本】。"), "文本】");
    assert_eq!(strip_punctuation("文本】。"), "文本");
}

#[test]
fn trim_of_nothing_but_punctuation_is_empty() {
    assert_eq!(trim_trailing_punctuation("。，！？"), "");
    assert_eq!(trim_trailing_punctuation(""), "");
    assert_eq!(trim_trailing_punctuation("abc"), "abc");
}

#[test]
fn trim_twice_is_trim_once() {
    let once = trim_trailing_punctuation("好的。。！");
    assert_eq!(once, "好的");
    assert_eq!(trim_trailing_punctuation(&once), once);
}

#[test]
fn punctuation_classes() {
    for c in "。，！？、；：.,!?;:\"'‘’（）()【】[]《》<>—…·".chars() {
        assert!(stream_punctuation(c), "{}", c);
    }
    for c in "。，！？、；：\"'.,!?;:".chars() {
        assert!(trailing_punctuation(c), "{}", c);
    }
    for c in "（）()【】[]《》<>—…·‘’".chars() {
        assert!(!trailing_punctuation(c), "{}", c);
    }
    for c in "a1 好-_/“”".chars() {
        assert!(!stream_punctuation(c), "{}", c);
        assert!(!trailing_punctuation(c), "{}", c);
    }
}
