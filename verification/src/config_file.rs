//! The shared toolchain configuration file.
//!
//! When cross-compiling, the build needs a linker entry for the target
//! triple in the host-wide toolchain configuration file: a section
//! `[target.<triple>]` with a `linker = "<path>"` key. The file belongs to
//! the user and may hold unrelated content; this module computes the file's
//! new content from its old one, appending the section only when no section
//! for that triple exists yet, so that repeated provisioning passes never
//! duplicate it and never touch what else is in the file. Reading and
//! writing the file itself happens outside the library.

use vstd::prelude::*;

use crate::text::{
    count_matching, has_trimmed_line, contains_trimmed_line, split_lines_spec, trimmed,
    lemma_count_matching_add, lemma_count_matching_positive, lemma_split_lines_append,
    lemma_first_newline_at, lemma_trimmed_is_subrange,
};
use crate::triple::{TargetTriple, triple_chars};

verus! {

/// The header line of the linker section for `t`.
pub open spec fn section_header_chars(t: TargetTriple) -> Seq<char> {
    "[target."@ + triple_chars(t) + "]"@
}

/// The whole linker section for `t`: the header line, then the linker key.
pub open spec fn linker_section_chars(t: TargetTriple, linker: Seq<char>) -> Seq<char> {
    section_header_chars(t) + "\nlinker = \""@ + linker + "\""@
}

/// `config` with `section` appended, after a blank separator line when the
/// file already has content.
pub open spec fn config_with_section(config: Seq<char>, section: Seq<char>) -> Seq<char> {
    if config.len() == 0 {
        section
    } else {
        config + seq!['\n', '\n'] + section
    }
}

/// The file content after one write: unchanged if some line already reads
/// `header` (trimmed), else the old content with `section` appended.
pub open spec fn written_config(
    config: Seq<char>,
    section: Seq<char>,
    header: Seq<char>,
) -> Seq<char> {
    if has_trimmed_line(config, header) {
        config
    } else {
        config_with_section(config, section)
    }
}

/// The header line of the linker section for `t`.
pub fn section_header(t: &TargetTriple) -> (r: String)
    ensures
        r@ == section_header_chars(*t),
{
    let mut r = "[target.".to_owned();
    r.append(t.as_text().as_str());
    r.append("]");
    proof {
        assert(r@ =~= section_header_chars(*t));
    }
    r
}

/// The whole linker section for `t` naming `linker`.
pub fn linker_section(t: &TargetTriple, linker: &str) -> (r: String)
    ensures
        r@ == linker_section_chars(*t, linker@),
{
    let mut r = section_header(t);
    r.append("\nlinker = \"");
    r.append(linker);
    r.append("\"");
    proof {
        assert(r@ =~= linker_section_chars(*t, linker@));
    }
    r
}

/// Computes the configuration file's new content. The section is appended
/// only when no line of the old content, trimmed, equals `header`; the flag
/// says whether it was. The old content is never altered, only extended.
pub fn write_linker_section(config: &str, section: &str, header: &str) -> (r: (String, bool))
    ensures
        r.0@ == written_config(config@, section@, header@),
        r.1 == !has_trimmed_line(config@, header@),
{
    if contains_trimmed_line(config, header) {
        (config.to_owned(), false)
    } else if config.unicode_len() == 0 {
        (section.to_owned(), true)
    } else {
        let mut r = config.to_owned();
        r.append("\n\n");
        r.append(section);
        proof {
            reveal_strlit("\n\n");
            assert(r@ =~= config@ + seq!['\n', '\n'] + section@);
        }
        (r, true)
    }
}

/// A section whose first line is its header: the lines of the section start
/// with `header`.
proof fn lemma_section_first_line(section: Seq<char>, header: Seq<char>)
    requires
        header.len() > 0,
        forall|k: int| 0 <= k < header.len() ==> header[k] != '\n',
        section.len() >= header.len(),
        section.subrange(0, header.len() as int) == header,
        section.len() > header.len() ==> section[header.len() as int] == '\n',
    ensures
        split_lines_spec(section).len() >= 1,
        split_lines_spec(section)[0] == header,
{
    if section.len() == header.len() {
        assert(section =~= header);
        lemma_first_newline_at(section, section.len() as int);
    } else {
        let rest = section.subrange(header.len() as int + 1, section.len() as int);
        assert(section =~= header + seq!['\n'] + rest);
        lemma_first_newline_at(header, header.len() as int);
        lemma_split_lines_append(header, rest);
        assert(split_lines_spec(header) =~= seq![header]);
    }
}

/// The sections this module writes satisfy what the idempotence law below
/// asks of a section and its header, whatever linker name stands in the
/// section: the header is non-empty, a single line, and its own trimmed
/// form, and the section starts with the header followed by a line feed.
pub proof fn lemma_linker_section_well_formed(t: TargetTriple, linker: Seq<char>)
    ensures
        section_header_chars(t).len() > 0,
        trimmed(section_header_chars(t)) == section_header_chars(t),
        forall|k: int|
            0 <= k < section_header_chars(t).len() ==> #[trigger] section_header_chars(t)[k]
                != '\n',
        linker_section_chars(t, linker).len() > section_header_chars(t).len(),
        linker_section_chars(t, linker).subrange(0, section_header_chars(t).len() as int)
            == section_header_chars(t),
        linker_section_chars(t, linker)[section_header_chars(t).len() as int] == '\n',
{
    let header = section_header_chars(t);
    let section = linker_section_chars(t, linker);
    reveal_strlit("[target.");
    reveal_strlit("]");
    reveal_strlit("\nlinker = \"");
    reveal_strlit("\"");
    reveal_strlit("x86_64-apple-darwin");
    reveal_strlit("x86_64-unknown-linux-gnu");
    reveal_strlit("x86_64-pc-windows-gnu");
    let prefix = "[target."@;
    let middle = triple_chars(t);
    assert forall|k: int| 0 <= k < header.len() implies #[trigger] header[k] != '\n' by {
        if k < prefix.len() {
            assert(header[k] == prefix[k]);
        } else if k < prefix.len() + middle.len() {
            assert(header[k] == middle[k - prefix.len()]);
        } else {
            assert(header[k] == "]"@[k - prefix.len() - middle.len()]);
        }
    }
    assert(header[0] == prefix[0]);
    assert(header[header.len() - 1] == "]"@[0]);
    crate::text::lemma_trimmed_is_subrange(header, 0, header.len() as int);
    assert(header.subrange(0, header.len() as int) =~= header);
    assert(section.subrange(0, header.len() as int) =~= header);
    assert(section[header.len() as int] == "\nlinker = \""@[0]);
}

/// How many lines of the file read `header` once trimmed: how many sections
/// for that target the file holds.
pub open spec fn header_line_count(s: Seq<char>, header: Seq<char>) -> nat {
    count_matching(split_lines_spec(s), header)
}

/// The linker section holds its header line exactly once, whenever the
/// linker's name has no line feed in it.
pub proof fn lemma_linker_section_single_header(t: TargetTriple, linker: Seq<char>)
    requires
        forall|k: int| 0 <= k < linker.len() ==> linker[k] != '\n',
    ensures
        header_line_count(linker_section_chars(t, linker), section_header_chars(t)) == 1,
{
    lemma_linker_section_well_formed(t, linker);
    let header = section_header_chars(t);
    let section = linker_section_chars(t, linker);
    reveal_strlit("[target.");
    reveal_strlit("\nlinker = \"");
    reveal_strlit("\"");
    let mid = "\nlinker = \""@;
    let rest = mid.subrange(1, mid.len() as int) + linker + "\""@;
    assert(section =~= header + seq!['\n'] + rest);
    lemma_split_lines_append(header, rest);
    lemma_first_newline_at(header, header.len() as int);
    assert(split_lines_spec(header) =~= seq![header]);
    assert forall|k: int| 0 <= k < rest.len() implies rest[k] != '\n' by {
        if k < mid.len() - 1 {
            assert(rest[k] == mid[k + 1]);
        } else if k < mid.len() - 1 + linker.len() {
            assert(rest[k] == linker[k - (mid.len() - 1)]);
        } else {
            assert(rest[k] == "\""@[k - (mid.len() - 1) - linker.len()]);
        }
    }
    lemma_first_newline_at(rest, rest.len() as int);
    assert(split_lines_spec(rest) =~= seq![rest]);
    lemma_count_matching_add(seq![header], seq![rest], header);
    // the header line counts once
    assert(count_matching(Seq::<Seq<char>>::empty(), header) == 0);
    assert(seq![header].drop_first() =~= Seq::<Seq<char>>::empty());
    assert(count_matching(seq![header], header) == 1);
    // the linker line is its own trimmed form and differs from the header
    assert(rest[0] == mid[1]);
    assert(rest.last() == "\""@[0]);
    lemma_trimmed_is_subrange(rest, 0, rest.len() as int);
    assert(rest.subrange(0, rest.len() as int) =~= rest);
    assert(header[0] == "[target."@[0]);
    assert(rest != header);
    assert(seq![rest].drop_first() =~= Seq::<Seq<char>>::empty());
    assert(count_matching(seq![rest], header) == 0);
    assert(count_matching(split_lines_spec(section), header) == 1);
}

/// A write into a file with no section for the target adds exactly the
/// section's own header lines and no other: the file had none, and the new
/// count is the section's.
pub proof fn lemma_write_appends_single_section(
    config: Seq<char>,
    section: Seq<char>,
    header: Seq<char>,
)
    requires
        header.len() > 0,
        !has_trimmed_line(config, header),
    ensures
        header_line_count(config, header) == 0,
        header_line_count(written_config(config, section, header), header) == header_line_count(
            section,
            header,
        ),
{
    lemma_count_matching_positive(split_lines_spec(config), header);
    let w = written_config(config, section, header);
    if config.len() == 0 {
    } else {
        let tail = seq!['\n'] + section;
        assert(w =~= config + seq!['\n'] + tail);
        lemma_split_lines_append(config, tail);
        assert(Seq::<char>::empty() + seq!['\n'] + section =~= tail);
        lemma_split_lines_append(Seq::<char>::empty(), section);
        assert(split_lines_spec(Seq::<char>::empty()) =~= seq![Seq::<char>::empty()]);
        lemma_count_matching_add(split_lines_spec(config), split_lines_spec(tail), header);
        lemma_count_matching_add(
            seq![Seq::<char>::empty()],
            split_lines_spec(section),
            header,
        );
        assert(count_matching(Seq::<Seq<char>>::empty(), header) == 0);
        assert(seq![Seq::<char>::empty()].drop_first() =~= Seq::<Seq<char>>::empty());
        assert(trimmed(Seq::<char>::empty()) =~= Seq::<char>::empty());
        assert(count_matching(seq![Seq::<char>::empty()], header) == 0);
    }
}

/// Config-file idempotence. Writing the linker section for a target twice
/// is the same as writing it once: the first write appends the section
/// exactly when no line of the file already reads `header`, preserving all
/// pre-existing content as an unchanged prefix, and the second write finds
/// the header and leaves the file as it is.
pub proof fn lemma_write_idempotent(config: Seq<char>, section: Seq<char>, header: Seq<char>)
    requires
        header.len() > 0,
        trimmed(header) == header,
        forall|k: int| 0 <= k < header.len() ==> header[k] != '\n',
        section.len() >= header.len(),
        section.subrange(0, header.len() as int) == header,
        section.len() > header.len() ==> section[header.len() as int] == '\n',
    ensures
        written_config(config, section, header).subrange(0, config.len() as int) == config,
        written_config(written_config(config, section, header), section, header)
            == written_config(config, section, header),
{
    let w = written_config(config, section, header);
    if has_trimmed_line(config, header) {
        assert(w.subrange(0, config.len() as int) =~= config);
    } else {
        lemma_section_first_line(section, header);
        if config.len() == 0 {
            assert(w.subrange(0, config.len() as int) =~= config);
            assert(trimmed(split_lines_spec(w)[0]) == header);
            assert(has_trimmed_line(w, header));
        } else {
            assert(w.subrange(0, config.len() as int) =~= config);
            let tail = seq!['\n'] + section;
            assert(w =~= config + seq!['\n'] + tail);
            lemma_split_lines_append(config, tail);
            assert(Seq::<char>::empty() + seq!['\n'] + section =~= tail);
            lemma_split_lines_append(Seq::<char>::empty(), section);
            assert(split_lines_spec(Seq::<char>::empty()) =~= seq![Seq::<char>::empty()]);
            let i = split_lines_spec(config).len() as int + 1;
            assert(split_lines_spec(w)[i] == split_lines_spec(section)[0]);
            assert(trimmed(split_lines_spec(w)[i]) == header);
            assert(0 <= i < split_lines_spec(w).len());
            assert(has_trimmed_line(w, header));
        }
    }
}

/// Config-file idempotence for the sections this module builds. Starting
/// from a file with no section for the target, one write appends the section
/// after the preserved old content and leaves exactly one line reading its
/// header; writing the same section again changes nothing, so the file still
/// holds exactly one.
pub proof fn lemma_linker_config_write_law(config: Seq<char>, t: TargetTriple, linker: Seq<char>)
    requires
        forall|k: int| 0 <= k < linker.len() ==> linker[k] != '\n',
        !has_trimmed_line(config, section_header_chars(t)),
    ensures
        written_config(config, linker_section_chars(t, linker), section_header_chars(t)).subrange(
            0,
            config.len() as int,
        ) == config,
        header_line_count(
            written_config(config, linker_section_chars(t, linker), section_header_chars(t)),
            section_header_chars(t),
        ) == 1,
        written_config(
            written_config(config, linker_section_chars(t, linker), section_header_chars(t)),
            linker_section_chars(t, linker),
            section_header_chars(t),
        ) == written_config(config, linker_section_chars(t, linker), section_header_chars(t)),
{
    lemma_linker_section_well_formed(t, linker);
    lemma_write_idempotent(config, linker_section_chars(t, linker), section_header_chars(t));
    lemma_write_appends_single_section(
        config,
        linker_section_chars(t, linker),
        section_header_chars(t),
    );
    lemma_linker_section_single_header(t, linker);
}

} // verus!
