//! Small presentation helpers: tags and the text symbols that the panels
//! show.

use vstd::prelude::*;
use vstd::string::StrSliceExecFns;

verus! {

/// A tag that mappings and instances can carry for grouping and
/// enable/disable by tag. A tag is never empty and holds neither commas
/// nor spaces, so that lists of tags survive the comma-separated form.
pub struct Tag {
    name: Vec<char>,
}

/// Whether a character may appear in a tag.
pub open spec fn spec_tag_char_ok(c: char) -> bool {
    c != ',' && c != ' '
}

/// The text without its leading spaces.
pub open spec fn spec_trim_front(s: Seq<char>) -> Seq<char>
    decreases s.len(),
{
    if s.len() > 0 && s[0] == ' ' {
        spec_trim_front(s.subrange(1, s.len() as int))
    } else {
        s
    }
}

/// The text without its trailing spaces.
pub open spec fn spec_trim_back(s: Seq<char>) -> Seq<char>
    decreases s.len(),
{
    if s.len() > 0 && s.last() == ' ' {
        spec_trim_back(s.drop_last())
    } else {
        s
    }
}

/// The text without its surrounding spaces.
pub open spec fn spec_trim(s: Seq<char>) -> Seq<char> {
    spec_trim_back(spec_trim_front(s))
}

impl Tag {
    pub closed spec fn spec_name(self) -> Seq<char> {
        self.name@
    }

    /// What makes a tag well-formed.
    pub open spec fn spec_wf(self) -> bool {
        self.spec_name().len() > 0 && forall|i: int|
            0 <= i < self.spec_name().len() ==> spec_tag_char_ok(#[trigger] self.spec_name()[i])
    }

    /// Reads a tag from text: surrounding spaces fall away, and the rest
    /// must be non-empty without commas or spaces.
    pub fn from_str(text: &str) -> (r: Result<Tag, &'static str>)
        ensures
            (match r {
                Ok(tag) => {
                    &&& tag.spec_wf()
                    &&& tag.spec_name() == spec_trim(text@)
                },
                Err(e) => {
                    &&& e@ == "invalid tag"@
                    &&& (spec_trim(text@).len() == 0 || exists|k: int|
                        0 <= k < spec_trim(text@).len() && !spec_tag_char_ok(
                            #[trigger] spec_trim(text@)[k],
                        ))
                },
            }),
            r is Ok <==> (spec_trim(text@).len() > 0 && forall|k: int|
                0 <= k < spec_trim(text@).len() ==> spec_tag_char_ok(
                    #[trigger] spec_trim(text@)[k],
                )),
    {
        let n = text.unicode_len();
        // Trim leading and trailing spaces.
        let mut start: usize = 0;
        proof {
            assert(text@.subrange(0, n as int) =~= text@);
        }
        while start < n && text.get_char(start) == ' '
            invariant
                start <= n,
                n == text@.len(),
                spec_trim_front(text@.subrange(start as int, n as int)) == spec_trim_front(text@),
            decreases n - start,
        {
            proof {
                let tail = text@.subrange(start as int, n as int);
                assert(tail[0] == text@[start as int]);
                assert(tail.subrange(1, tail.len() as int) =~= text@.subrange(start + 1, n as int));
            }
            start += 1;
        }
        proof {
            assert(text@.subrange(start as int, n as int) == spec_trim_front(text@));
        }
        let mut end: usize = n;
        while end > start && text.get_char(end - 1) == ' '
            invariant
                start <= end <= n,
                n == text@.len(),
                text@.subrange(start as int, n as int) == spec_trim_front(text@),
                spec_trim_back(text@.subrange(start as int, end as int)) == spec_trim(text@),
            decreases end,
        {
            proof {
                let seg = text@.subrange(start as int, end as int);
                assert(seg.last() == text@[end - 1]);
                assert(seg.drop_last() =~= text@.subrange(start as int, end - 1));
            }
            end -= 1;
        }
        proof {
            assert(text@.subrange(start as int, end as int) == spec_trim(text@));
        }
        let mut name: Vec<char> = Vec::new();
        let mut i: usize = start;
        proof {
            assert(text@.subrange(start as int, start as int) =~= Seq::<char>::empty());
        }
        while i < end
            invariant
                start <= i <= end <= n,
                n == text@.len(),
                text@.subrange(start as int, end as int) == spec_trim(text@),
                name@ == text@.subrange(start as int, i as int),
                forall|k: int| 0 <= k < name@.len() ==> spec_tag_char_ok(#[trigger] name@[k]),
            decreases end - i,
        {
            let c = text.get_char(i);
            if c == ',' || c == ' ' {
                proof {
                    assert(spec_trim(text@)[i - start] == text@[i as int]);
                }
                return Err("invalid tag");
            }
            name.push(c);
            proof {
                assert(name@ =~= text@.subrange(start as int, i + 1));
            }
            i += 1;
        }
        if name.len() == 0 {
            return Err("invalid tag");
        }
        Ok(Tag { name })
    }

    /// The tag's characters.
    pub fn chars(&self) -> (r: &Vec<char>)
        ensures
            r@ == self.spec_name(),
    {
        &self.name
    }
}

/// Whether a comma-separated item yields a tag: trimmed it is non-empty
/// and free of commas and spaces.
pub open spec fn spec_item_ok(item: Seq<char>) -> bool {
    spec_trim(item).len() > 0 && forall|k: int|
        0 <= k < spec_trim(item).len() ==> spec_tag_char_ok(#[trigger] spec_trim(item)[k])
}

/// The scan state after reading a prefix of comma-separated text: the tag
/// names collected so far, and the characters of the item still open.
pub open spec fn spec_csv_scan(s: Seq<char>) -> (Seq<Seq<char>>, Seq<char>)
    decreases s.len(),
{
    if s.len() == 0 {
        (Seq::empty(), Seq::empty())
    } else {
        let (done, cur) = spec_csv_scan(s.drop_last());
        if s.last() == ',' {
            if spec_item_ok(cur) {
                (done.push(spec_trim(cur)), Seq::empty())
            } else {
                (done, Seq::empty())
            }
        } else {
            (done, cur.push(s.last()))
        }
    }
}

/// The tag names a comma-separated text yields: each item that trims to a
/// valid tag contributes its trimmed form, in order.
pub open spec fn spec_parsed_tag_names(s: Seq<char>) -> Seq<Seq<char>> {
    let (done, cur) = spec_csv_scan(s);
    if spec_item_ok(cur) {
        done.push(spec_trim(cur))
    } else {
        done
    }
}

/// Reads tags from comma-separated text: each comma-separated item that
/// holds a valid tag yields one; the rest fall away.
pub fn parse_tags_from_csv(text: &str) -> (r: Vec<Tag>)
    ensures
        forall|i: int| 0 <= i < r@.len() ==> (#[trigger] r@[i]).spec_wf(),
        r@.map_values(|t: Tag| t.spec_name()) == spec_parsed_tag_names(text@),
{
    let n = text.unicode_len();
    let mut tags: Vec<Tag> = Vec::new();
    let mut item: Vec<char> = Vec::new();
    let mut i: usize = 0;
    proof {
        assert(text@.take(0) =~= Seq::<char>::empty());
        assert(tags@.map_values(|t: Tag| t.spec_name()) =~= Seq::<Seq<char>>::empty());
    }
    while i < n
        invariant
            i <= n,
            n == text@.len(),
            forall|k: int| 0 <= k < tags@.len() ==> (#[trigger] tags@[k]).spec_wf(),
            (tags@.map_values(|t: Tag| t.spec_name()), item@) == spec_csv_scan(
                text@.take(i as int),
            ),
        decreases n - i,
    {
        let ghost names_pre = tags@.map_values(|t: Tag| t.spec_name());
        let ghost item_pre = item@;
        let c = text.get_char(i);
        if c == ',' {
            let s = crate::pot::chars_to_string(&item);
            match Tag::from_str(s.as_str()) {
                Ok(tag) => {
                    tags.push(tag);
                    proof {
                        assert(tags@.map_values(|t: Tag| t.spec_name()) =~= names_pre.push(
                            tag.spec_name(),
                        ));
                    }
                },
                Err(_) => {},
            }
            item = Vec::new();
        } else {
            item.push(c);
        }
        proof {
            let prefix = text@.take(i + 1);
            assert(prefix.drop_last() =~= text@.take(i as int));
            assert(prefix.last() == text@[i as int]);
            if c != ',' {
                assert(item@ =~= item_pre.push(c));
            } else {
                assert(item@ =~= Seq::<char>::empty());
            }
        }
        i += 1;
    }
    proof {
        assert(text@.take(n as int) =~= text@);
    }
    let ghost names_end = tags@.map_values(|t: Tag| t.spec_name());
    let s = crate::pot::chars_to_string(&item);
    match Tag::from_str(s.as_str()) {
        Ok(tag) => {
            tags.push(tag);
            proof {
                assert(tags@.map_values(|t: Tag| t.spec_name()) =~= names_end.push(
                    tag.spec_name(),
                ));
            }
        },
        Err(_) => {},
    }
    tags
}

/// The comma-separated text for a list of tags: the names in order,
/// separated by a comma and a space.
pub open spec fn spec_tags_csv(tags: Seq<Tag>) -> Seq<char>
    decreases tags.len(),
{
    if tags.len() == 0 {
        Seq::empty()
    } else if tags.len() == 1 {
        tags[0].spec_name()
    } else {
        spec_tags_csv(tags.drop_last()) + seq![',', ' '] + tags.last().spec_name()
    }
}

/// Writes tags as comma-separated text, separated by a comma and a space.
pub fn format_tags_as_csv(tags: &Vec<Tag>) -> (r: String)
    ensures
        r@ == spec_tags_csv(tags@),
{
    let mut chars: Vec<char> = Vec::new();
    let mut i: usize = 0;
    proof {
        assert(tags@.take(0) =~= Seq::<Tag>::empty());
    }
    while i < tags.len()
        invariant
            i <= tags@.len(),
            chars@ == spec_tags_csv(tags@.take(i as int)),
        decreases tags@.len() - i,
    {
        let ghost sep_base = chars@;
        if i > 0 {
            chars.push(',');
            chars.push(' ');
            proof {
                assert(chars@ =~= sep_base + seq![',', ' ']);
            }
        }
        let ghost base = chars@;
        let name = tags[i].chars();
        let mut j: usize = 0;
        proof {
            assert(base + name@.take(0) =~= base);
        }
        while j < name.len()
            invariant
                j <= name@.len(),
                name@ == tags@[i as int].spec_name(),
                i < tags@.len(),
                chars@ == base + name@.take(j as int),
            decreases name@.len() - j,
        {
            chars.push(name[j]);
            proof {
                assert(name@.take(j + 1) =~= name@.take(j as int).push(name@[j as int]));
                assert(base + name@.take(j + 1) =~= (base + name@.take(j as int)).push(
                    name@[j as int],
                ));
            }
            j += 1;
        }
        proof {
            assert(name@.take(name@.len() as int) =~= name@);
            let prefix = tags@.take(i + 1);
            assert(prefix.drop_last() =~= tags@.take(i as int));
            assert(prefix.last() == tags@[i as int]);
            if i == 0 {
                assert(chars@ =~= tags@[0].spec_name());
            }
        }
        i += 1;
    }
    proof {
        assert(tags@.take(tags@.len() as int) =~= tags@);
    }
    crate::pot::chars_to_string(&chars)
}

/// The status indicator symbol shown next to active rows.
pub fn indicator_symbol() -> (r: &'static str)
    ensures
        r@ == "*"@,
{
    "*"
}

/// The symbol on the button that moves an entry up.
pub fn arrow_up_symbol() -> (r: &'static str)
    ensures
        r@ == "Up"@,
{
    "Up"
}

/// The symbol on the button that moves an entry down.
pub fn arrow_down_symbol() -> (r: &'static str)
    ensures
        r@ == "Down"@,
{
    "Down"
}

/// The symbol on the button that moves an entry left.
pub fn arrow_left_symbol() -> (r: &'static str)
    ensures
        r@ == "<="@,
{
    "<="
}

/// The symbol on the button that moves an entry right.
pub fn arrow_right_symbol() -> (r: &'static str)
    ensures
        r@ == "=>"@,
{
    "=>"
}

} // verus!
