use passgen::algorithm::generator::{
    calculate_string_length, choices_for, length_from_sample, Generator,
};
use passgen::algorithm::word_picker::WordPicker;

fn words(list: &[&str]) -> Vec<String> {
    list.iter().map(|word| word.to_string()).collect()
}

#[test]
fn choices_count_the_steps_of_the_window() {
    assert_eq!(choices_for(0), 1);
    assert_eq!(choices_for(3), 1);
    assert_eq!(choices_for(4), 3);
    assert_eq!(choices_for(10), 5);
    assert_eq!(choices_for(16), 9);
    assert_eq!(choices_for(usize::MAX), 2 * (usize::MAX / 4) + 1);
}

#[test]
fn length_from_sample_adds_sample_to_shortest_length() {
    assert_eq!(length_from_sample(10, 0), 8);
    assert_eq!(length_from_sample(10, 2), 10);
    assert_eq!(length_from_sample(10, 3), 11);
    assert_eq!(length_from_sample(10, 4), 12);
    assert_eq!(length_from_sample(16, 0), 12);
    assert_eq!(length_from_sample(16, 8), 20);
    assert_eq!(length_from_sample(0, 0), 0);
    assert_eq!(length_from_sample(3, 0), 3);
}

#[test]
fn length_from_sample_is_held_at_the_largest_value() {
    assert_eq!(length_from_sample(usize::MAX, usize::MAX), usize::MAX);
    assert_eq!(length_from_sample(usize::MAX, usize::MAX / 2), usize::MAX);
    assert_eq!(length_from_sample(8, usize::MAX), usize::MAX);
    assert_eq!(length_from_sample(8, usize::MAX - 6), usize::MAX);
    assert_eq!(length_from_sample(8, usize::MAX - 7), usize::MAX - 1);
}

#[test]
fn length_from_sample_is_repeatable() {
    for average in [0usize, 1, 7, 10, 100, 12345] {
        for sample in [0usize, 1, 2, 50] {
            assert_eq!(length_from_sample(average, sample), length_from_sample(average, sample));
        }
    }
}

#[test]
fn calculated_length_stays_within_a_quarter_of_the_average() {
    let mut rng = rand::thread_rng();
    for _ in 0..2000 {
        let length = calculate_string_length(10, &mut rng);
        assert!((8..=12).contains(&length), "unexpected {}", length);
    }
    for _ in 0..2000 {
        let length = calculate_string_length(100, &mut rng);
        assert!((75..=125).contains(&length), "unexpected {}", length);
    }
}

#[test]
fn calculated_length_takes_every_value_of_a_small_window() {
    let mut rng = rand::thread_rng();
    let mut seen = [false; 5];
    for _ in 0..2000 {
        seen[calculate_string_length(10, &mut rng) - 8] = true;
    }
    assert_eq!(seen, [true; 5]);
}

#[test]
fn calculated_length_of_a_small_average_is_the_average() {
    let mut rng = rand::thread_rng();
    for _ in 0..100 {
        assert_eq!(calculate_string_length(0, &mut rng), 0);
        assert_eq!(calculate_string_length(1, &mut rng), 1);
        assert_eq!(calculate_string_length(3, &mut rng), 3);
    }
}

#[test]
fn calculated_length_of_the_largest_average_does_not_overflow() {
    let mut rng = rand::thread_rng();
    for _ in 0..100 {
        let length = calculate_string_length(usize::MAX, &mut rng);
        assert!(length >= usize::MAX - usize::MAX / 4);
    }
}

#[test]
fn word_picker_without_words_passes_the_value_through() {
    let mut rng = rand::thread_rng();
    let picker = WordPicker::new(Vec::new());

    assert_eq!(picker.generate(0, String::from("kept"), &mut rng), "kept");
    assert_eq!(picker.generate(3, String::new(), &mut rng), "");
}

#[test]
fn word_picker_with_one_word_appends_it() {
    let mut rng = rand::thread_rng();
    let picker = WordPicker::new(words(&["horse"]));

    assert_eq!(picker.generate(0, String::new(), &mut rng), "horse");
    assert_eq!(picker.generate(5, String::from("correct-"), &mut rng), "correct-horse");
}

#[test]
fn word_picker_appends_one_of_its_words() {
    let mut rng = rand::thread_rng();
    let picker = WordPicker::new(words(&["a", "bc", "def"]));
    let mut seen = [false; 3];

    for _ in 0..600 {
        let result = picker.generate(1, String::from(">"), &mut rng);
        match result.as_str() {
            ">a" => seen[0] = true,
            ">bc" => seen[1] = true,
            ">def" => seen[2] = true,
            other => panic!("unexpected {}", other),
        }
    }
    assert_eq!(seen, [true; 3]);
}
