use catr::numbering::{copy_source, LineNumberer, Numbering};

fn strings(items: &[&str]) -> Vec<String> {
    items.iter().map(|item| item.to_string()).collect()
}

fn lines_of(text: &str) -> Vec<String> {
    text.lines().map(|line| line.to_string()).collect()
}

#[test]
fn numbers_all_lines() {
    let text = copy_source(Numbering::AllLines, &strings(&["apple", "", "banana"]));
    assert_eq!(lines_of(&text), strings(&["     1\tapple", "     2\t", "     3\tbanana"]));
    assert_eq!(text, "     1\tapple\n     2\t\n     3\tbanana\n");
}

#[test]
fn numbers_nonblank_lines() {
    let text = copy_source(Numbering::NonBlankLines, &strings(&["apple", "", "banana"]));
    assert_eq!(lines_of(&text), strings(&["     1\tapple", "", "     2\tbanana"]));
    assert_eq!(text, "     1\tapple\n\n     2\tbanana\n");
}

#[test]
fn copies_unnumbered_lines_as_they_are() {
    let text = copy_source(Numbering::Off, &strings(&["apple", "", "banana"]));
    assert_eq!(text, "apple\n\nbanana\n");
}

#[test]
fn copies_an_empty_source_to_nothing() {
    assert_eq!(copy_source(Numbering::Off, &Vec::new()), "");
    assert_eq!(copy_source(Numbering::AllLines, &Vec::new()), "");
    assert_eq!(copy_source(Numbering::NonBlankLines, &Vec::new()), "");
}

#[test]
fn the_kth_line_carries_k() {
    let lines: Vec<String> = (0..120).map(|i| if i % 3 == 0 { String::new() } else { format!("l{}", i) }).collect();
    let text = copy_source(Numbering::AllLines, &lines);
    let written = lines_of(&text);
    assert_eq!(written.len(), lines.len());
    for k in 1..=lines.len() {
        assert_eq!(written[k - 1], format!("{:>6}\t{}", k, lines[k - 1]));
    }
    assert_eq!(written[9], "    10\t");
    assert_eq!(written[10], "    11\tl10");
    assert_eq!(written[99], "   100\t");
    assert_eq!(written[100], "   101\tl100");
}

#[test]
fn nonblank_lines_carry_the_count_of_nonblank_lines() {
    let lines = strings(&["", "a", "", "", "b", "c", "", "d"]);
    let text = copy_source(Numbering::NonBlankLines, &lines);
    let written = lines_of(&text);
    assert_eq!(written.len(), lines.len());
    let mut count = 0;
    for i in 0..lines.len() {
        if lines[i].is_empty() {
            assert_eq!(written[i], "");
        } else {
            count += 1;
            assert_eq!(written[i], format!("{:>6}\t{}", count, lines[i]));
        }
    }
    assert_eq!(text, "\n     1\ta\n\n\n     2\tb\n     3\tc\n\n     4\td\n");
}

#[test]
fn a_line_of_blanks_is_not_blank() {
    let text = copy_source(Numbering::NonBlankLines, &strings(&[" ", "\t"]));
    assert_eq!(text, "     1\t \n     2\t\t\n");
}

#[test]
fn emit_gives_one_line_at_a_time() {
    let mut numberer = LineNumberer::new(Numbering::AllLines);
    assert!(numberer.can_emit());
    assert_eq!(numberer.emit("apple"), "     1\tapple\n");
    assert_eq!(numberer.emit(""), "     2\t\n");
    assert_eq!(numberer.emit("banana"), "     3\tbanana\n");
    assert!(numberer.can_emit());
}

#[test]
fn emit_skips_blank_lines_when_told_to() {
    let mut numberer = LineNumberer::new(Numbering::NonBlankLines);
    assert_eq!(numberer.emit(""), "\n");
    assert_eq!(numberer.emit("apple"), "     1\tapple\n");
    assert_eq!(numberer.emit(""), "\n");
    assert_eq!(numberer.emit("banana"), "     2\tbanana\n");
}

#[test]
fn emit_without_numbering_adds_the_newline_only() {
    let mut numberer = LineNumberer::new(Numbering::Off);
    assert_eq!(numberer.emit("apple"), "apple\n");
    assert_eq!(numberer.emit(""), "\n");
    assert_eq!(numberer.emit("     1\tx"), "     1\tx\n");
}

#[test]
fn a_new_counter_starts_at_one() {
    let mut first = LineNumberer::new(Numbering::AllLines);
    assert_eq!(first.emit("a"), "     1\ta\n");
    assert_eq!(first.emit("b"), "     2\tb\n");
    let mut second = LineNumberer::new(Numbering::AllLines);
    assert_eq!(second.emit("c"), "     1\tc\n");
}

#[test]
fn emit_and_copy_source_agree() {
    let lines = strings(&["x", "", "yy", "", "", "zzz"]);
    for mode in [Numbering::Off, Numbering::AllLines, Numbering::NonBlankLines] {
        let mut numberer = LineNumberer::new(mode);
        let mut text = String::new();
        for line in &lines {
            text.push_str(&numberer.emit(line));
        }
        assert_eq!(text, copy_source(mode, &lines));
    }
}
