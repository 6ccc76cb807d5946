use progress_string::{Bar, BarBuilder};

fn track_of(text: &str, width: usize) -> Vec<char> {
    text.chars().skip(1).take(width).collect()
}

#[test]
fn default_bar_is_an_empty_track() {
    let bar = BarBuilder::new().build();
    assert_eq!(bar.render(), format!("[{}]", " ".repeat(50)));
    assert_eq!(bar.total, 100);
    assert_eq!(bar.current_partial, 0);
}

#[test]
fn default_impls_agree_with_new() {
    assert_eq!(BarBuilder::default().build().render(), Bar::default().render());
    assert_eq!(BarBuilder::new().build().render(), Bar::default().render());
    assert_eq!(BarBuilder::default().include_numbers().build().render().len(), 58);
}

#[test]
fn half_way_fills_24_cells_and_one_leading_cell() {
    let mut bar = BarBuilder::new()
        .full_char('#')
        .leading_char(Some('>'))
        .empty_char('.')
        .build();
    bar.update(50);
    let cells = track_of(&bar.render(), 50);
    assert_eq!(cells.len(), 50);
    for (i, c) in cells.iter().enumerate() {
        if i < 24 {
            assert_eq!(*c, '#');
        } else if i == 24 {
            assert_eq!(*c, '>');
        } else {
            assert_eq!(*c, '.');
        }
    }
}

#[test]
fn percent_suffix_at_half() {
    let mut bar = BarBuilder::new().include_percent().build();
    bar.update(50);
    let text = bar.render();
    let suffix: String = text.chars().skip(52).collect();
    assert_eq!(suffix, " 50.00%");
}

#[test]
fn numbers_suffix_after_replace() {
    let mut bar = BarBuilder::new().include_numbers().build();
    bar.replace(10);
    let text = bar.render();
    let suffix: String = text.chars().skip(52).collect();
    assert_eq!(suffix, " 10/100");
}

#[test]
fn leading_override_marks_the_boundary() {
    let mut bar = BarBuilder::new().leading_char(Some('>')).build();
    bar.update(50);
    let cells = track_of(&bar.render(), 50);
    assert_eq!(cells[24], '>');
    assert_eq!(cells[23], '█');
    assert_eq!(cells[25], ' ');
}

#[test]
fn brackets_enclose_the_track() {
    for &(total, width, current) in &[
        (1usize, 1usize, 0usize),
        (1, 1, 1),
        (3, 7, 2),
        (100, 50, 37),
        (10, 3, 25),
        (1000, 120, 999),
    ] {
        for flags in 0..4 {
            let mut builder = BarBuilder::new().total(total).width(width);
            if flags & 1 == 1 {
                builder = builder.include_percent();
            }
            if flags & 2 == 2 {
                builder = builder.include_numbers();
            }
            let mut bar = builder.build();
            bar.replace(current);
            let chars: Vec<char> = bar.render().chars().collect();
            assert_eq!(chars[0], '[');
            assert_eq!(chars[width + 1], ']');
            assert!(chars[1..width + 1].iter().all(|c| *c == '█' || *c == ' '));
            if flags == 0 {
                assert_eq!(chars.len(), width + 2);
                assert_eq!(*chars.last().unwrap(), ']');
            } else {
                assert_eq!(chars[width + 2], ' ');
            }
        }
    }
}

#[test]
fn track_length_is_the_width_for_any_progress() {
    for width in [0usize, 1, 2, 9, 50, 200] {
        for current in [0usize, 1, 50, 99, 100, 101, 5000] {
            let mut bar = BarBuilder::new().width(width).build();
            bar.replace(current);
            let text = bar.render();
            assert_eq!(text.chars().count(), width + 2);
            assert_eq!(track_of(&text, width).len(), width);
        }
    }
}

#[test]
fn rendering_twice_gives_the_same_text() {
    let mut bar = BarBuilder::new()
        .total(7)
        .width(13)
        .include_percent()
        .include_numbers()
        .build();
    bar.update(3);
    let first = bar.render();
    let second = bar.render();
    assert_eq!(first, second);
    assert_eq!(bar.to_string(), first);
    assert_eq!(bar.current_partial, 3);
    assert_eq!(bar.get_last_width(), 13 + 2 + 4 + 6);
}

#[test]
fn percent_comes_before_numbers() {
    let mut bar = BarBuilder::new()
        .width(4)
        .include_numbers()
        .include_percent()
        .build();
    bar.update(25);
    assert_eq!(bar.render(), "[█   ] 25.00% 25/100");
}

#[test]
fn custom_glyphs_and_width() {
    let mut bar = BarBuilder::new()
        .total(1000000)
        .width(20)
        .empty_char('0')
        .full_char('X')
        .include_percent()
        .build();
    bar.replace(500000);
    assert_eq!(bar.render(), "[XXXXXXXXXX0000000000] 50.00%");
}

#[test]
fn leading_glyph_falls_back_to_full_char_at_build() {
    let mut early = BarBuilder::new().width(4).full_char('X').build();
    early.update(50);
    assert_eq!(early.render(), "[XX  ]");

    let mut withdrawn = BarBuilder::new()
        .width(4)
        .leading_char(Some('>'))
        .leading_char(None)
        .full_char('Y')
        .build();
    withdrawn.update(50);
    assert_eq!(withdrawn.render(), "[YY  ]");

    let mut kept = BarBuilder::new()
        .width(4)
        .leading_char(Some('}'))
        .full_char('X')
        .build();
    kept.update(50);
    assert_eq!(kept.render(), "[X}  ]");
}

#[test]
fn get_bar_is_build() {
    let builder = BarBuilder::new().total(8).width(8).include_numbers();
    let mut bar = builder.get_bar();
    bar.update(3);
    assert_eq!(bar.render(), "[███     ] 3/8");
    assert_eq!(bar.total, 8);
}

#[test]
fn fractional_fill_boundary() {
    // fill = 10 * 1 / 3 = 3.33..: columns 0..=2 lie below fill - 1, column 3 below fill.
    let mut bar = BarBuilder::new()
        .total(3)
        .width(10)
        .full_char('=')
        .leading_char(Some('>'))
        .empty_char('-')
        .build();
    bar.update(1);
    assert_eq!(bar.render(), "[===>------]");
    // fill = 6.66..
    bar.update(1);
    assert_eq!(bar.render(), "[======>---]");
    // fill = 10: column 9 is the leading cell
    bar.update(1);
    assert_eq!(bar.render(), "[=========>]");
}

#[test]
fn progress_beyond_total_fills_the_track() {
    let mut bar = BarBuilder::new()
        .width(5)
        .leading_char(Some('>'))
        .include_percent()
        .include_numbers()
        .build();
    bar.replace(250);
    assert_eq!(bar.render(), "[█████] 250.00% 250/100");
    assert_eq!(bar.get_width(), 5 + 2 + 8 + 8);
}

#[test]
fn zero_total_renders_as_zero_percent() {
    let mut bar = BarBuilder::new()
        .total(0)
        .width(6)
        .include_percent()
        .include_numbers()
        .build();
    assert_eq!(bar.render(), "[      ] 0.00% 0/0");
    assert_eq!(bar.get_width(), 6 + 2 + 6 + 4);
    bar.update(5);
    assert_eq!(bar.render(), "[      ] 0.00% 5/0");
    assert_eq!(bar.get_width(), 6 + 2 + 6 + 4);
}

#[test]
fn zero_width_renders_brackets_and_suffixes() {
    let mut bar = BarBuilder::new().width(0).build();
    assert_eq!(bar.render(), "[]");
    assert_eq!(bar.get_width(), 2);
    bar.update(70);
    assert_eq!(bar.render(), "[]");

    let mut with_suffix = BarBuilder::new().width(0).include_percent().include_numbers().build();
    with_suffix.update(70);
    assert_eq!(with_suffix.render(), "[] 70.00% 70/100");
}

#[test]
fn percent_rounds_to_two_decimals() {
    let cases: [(usize, usize, &str); 10] = [
        (1, 3, " 33.33%"),
        (2, 3, " 66.67%"),
        (1, 8, " 12.50%"),
        (1, 800, " 0.12%"),
        (3, 800, " 0.38%"),
        (5, 800, " 0.62%"),
        (1, 7, " 14.29%"),
        (19999, 20000, " 100.00%"),
        (1, 1000000, " 0.00%"),
        (12345, 10, " 123450.00%"),
    ];
    for (current, total, expected) in cases {
        let mut bar = BarBuilder::new().total(total).width(0).include_percent().build();
        bar.replace(current);
        assert_eq!(bar.render(), format!("[]{}", expected));
    }
}

#[test]
fn large_amounts_render_exactly() {
    let mut bar = BarBuilder::new()
        .total(usize::MAX)
        .width(4)
        .include_percent()
        .include_numbers()
        .build();
    bar.replace(usize::MAX);
    assert_eq!(
        bar.render(),
        format!("[███{}] 100.00% {}/{}", '█', usize::MAX, usize::MAX)
    );
    bar.replace(usize::MAX / 2);
    assert_eq!(
        bar.render(),
        format!("[█{}  ] 50.00% {}/{}", '█', usize::MAX / 2, usize::MAX)
    );
}
