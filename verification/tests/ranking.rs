use gateway_core::ranking::{token_overlap, Overlap};

fn jaccard(a: &str, b: &str) -> f32 {
    let overlap = token_overlap(a, b);
    let union = overlap.shared + overlap.only_first + overlap.only_second;
    if union == 0 {
        0.0
    } else {
        overlap.shared as f32 / union as f32
    }
}

fn standard(a: &str, b: &str) -> f32 {
    let tokenize =
        |text: &str| text.split_whitespace().map(|token| token.to_lowercase()).collect::<Vec<_>>();
    let a_tokens = tokenize(a);
    let b_tokens = tokenize(b);
    if a_tokens.is_empty() || b_tokens.is_empty() {
        return 0.0;
    }
    let a_set: std::collections::HashSet<_> = a_tokens.iter().collect();
    let b_set: std::collections::HashSet<_> = b_tokens.iter().collect();
    let intersection = a_set.intersection(&b_set).count() as f32;
    let union = a_set.union(&b_set).count() as f32;
    if union == 0.0 {
        0.0
    } else {
        intersection / union
    }
}

#[test]
fn overlap_counts_each_word_once_without_regard_to_case() {
    assert_eq!(
        token_overlap("the quick brown fox", "The lazy FOX fox"),
        Overlap { shared: 2, only_first: 2, only_second: 1 }
    );
    assert_eq!(token_overlap("a a a", "A"), Overlap { shared: 1, only_first: 0, only_second: 0 });
    assert_eq!(token_overlap("a b", "c d e"), Overlap { shared: 0, only_first: 2, only_second: 3 });
}

#[test]
fn overlap_of_empty_texts_is_empty() {
    assert_eq!(token_overlap("", ""), Overlap { shared: 0, only_first: 0, only_second: 0 });
    assert_eq!(token_overlap("  ", "x y"), Overlap { shared: 0, only_first: 0, only_second: 2 });
    assert_eq!(token_overlap("x", "\n"), Overlap { shared: 0, only_first: 1, only_second: 0 });
}

#[test]
fn similarity_is_shared_over_all() {
    assert_eq!(jaccard("a b c", "b c d"), 0.5);
    assert_eq!(jaccard("same words", "words SAME"), 1.0);
    assert_eq!(jaccard("a", "b"), 0.0);
    assert_eq!(jaccard("", "b"), 0.0);
}

#[test]
fn similarity_agrees_with_the_set_computation() {
    let texts = ["", "a", "A a b", "b  c\td", "Ünï cödé ünï", "x y z x Y", "  "];
    for a in texts {
        for b in texts {
            assert_eq!(jaccard(a, b), standard(a, b));
        }
    }
}
