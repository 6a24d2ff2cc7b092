//! Debian control paragraphs and control files, and their text form.
use vstd::prelude::*;

verus! {

/// An ordered sequence of `Key: Value` fields.
#[derive(Debug, Clone)]
pub struct ControlParagraph {
    pub fields: Vec<(String, String)>,
}

/// One or more paragraphs, rendered one after another with a blank line
/// between them.
#[derive(Debug, Clone)]
pub struct ControlFile {
    pub paragraphs: Vec<ControlParagraph>,
}

/// The fields of a paragraph.
pub type Fields = Seq<(Seq<char>, Seq<char>)>;

impl View for ControlParagraph {
    type V = Fields;

    open spec fn view(&self) -> Fields {
        self.fields@.map_values(|f: (String, String)| (f.0@, f.1@))
    }
}

impl View for ControlFile {
    type V = Seq<Fields>;

    open spec fn view(&self) -> Seq<Fields> {
        self.paragraphs@.map_values(|p: ControlParagraph| p@)
    }
}

/// The line `Key: Value` of one field.
pub open spec fn field_line(f: (Seq<char>, Seq<char>)) -> Seq<char> {
    f.0 + seq![':', ' '] + f.1 + seq!['\n']
}

/// The text of a paragraph: its field lines in order.
pub open spec fn paragraph_text(p: Fields) -> Seq<char>
    decreases p.len(),
{
    if p.len() == 0 {
        Seq::empty()
    } else {
        paragraph_text(p.drop_last()) + field_line(p.last())
    }
}

/// The text of a control file: its paragraphs with a blank line between
/// neighbours.
pub open spec fn control_text(ps: Seq<Fields>) -> Seq<char>
    decreases ps.len(),
{
    if ps.len() == 0 {
        Seq::empty()
    } else if ps.len() == 1 {
        paragraph_text(ps[0])
    } else {
        control_text(ps.drop_last()) + seq!['\n'] + paragraph_text(ps.last())
    }
}

/// The value of the first field named `key`, if any.
pub open spec fn entry_spec(p: Fields, key: Seq<char>) -> Option<Seq<char>>
    decreases p.len(),
{
    if p.len() == 0 {
        None
    } else if p[0].0 == key {
        Some(p[0].1)
    } else {
        entry_spec(p.drop_first(), key)
    }
}

impl ControlParagraph {
    /// A paragraph with no fields.
    pub fn new() -> (r: ControlParagraph)
        ensures
            r@ == Seq::<(Seq<char>, Seq<char>)>::empty(),
    {
        ControlParagraph { fields: Vec::new() }
    }

    /// Appends the field `key: value`.
    pub fn add_entry(&mut self, key: &str, value: String)
        ensures
            final(self)@ == old(self)@.push((key@, value@)),
    {
        let k = String::from_str(key);
        let ghost v = value@;
        self.fields.push((k, value));
        proof {
            assert(self@ =~= old(self)@.push((key@, v)));
        }
    }

    /// The value of the first field named `key`.
    pub fn get_entry(&self, key: &str) -> (r: Option<String>)
        ensures
            match r {
                Some(v) => entry_spec(self@, key@) == Some(v@),
                None => entry_spec(self@, key@).is_none(),
            },
    {
        let mut i: usize = 0;
        proof {
            assert(self@.subrange(0, self@.len() as int) =~= self@);
        }
        while i < self.fields.len()
            invariant
                0 <= i <= self.fields.len(),
                entry_spec(self@, key@) == entry_spec(self@.subrange(i as int, self@.len() as int), key@),
            decreases self.fields.len() - i,
        {
            proof {
                let rest = self@.subrange(i as int, self@.len() as int);
                assert(rest.drop_first() =~= self@.subrange(i + 1, self@.len() as int));
            }
            if crate::text::str_equal(self.fields[i].0.as_str(), key) {
                return Some(self.fields[i].1.clone());
            }
            i = i + 1;
        }
        None
    }

    /// A copy with the same fields.
    pub fn duplicate(&self) -> (r: ControlParagraph)
        ensures
            r@ == self@,
    {
        let mut fields: Vec<(String, String)> = Vec::new();
        let mut i: usize = 0;
        while i < self.fields.len()
            invariant
                0 <= i <= self.fields.len(),
                fields@.map_values(|f: (String, String)| (f.0@, f.1@)) =~= self@.subrange(0, i as int),
            decreases self.fields.len() - i,
        {
            let k = self.fields[i].0.clone();
            let v = self.fields[i].1.clone();
            let ghost prev = fields@;
            fields.push((k, v));
            proof {
                assert(fields@ == prev.push((k, v)));
                assert(fields@.map_values(|f: (String, String)| (f.0@, f.1@)) =~= prev.map_values(
                    |f: (String, String)| (f.0@, f.1@),
                ).push((k@, v@)));
            }
            i = i + 1;
        }
        ControlParagraph { fields }
    }

    /// The paragraph's text: one `Key: Value` line per field, in order.
    pub fn render(&self) -> (r: String)
        ensures
            r@ == paragraph_text(self@),
    {
        let mut r = String::new();
        let mut i: usize = 0;
        proof {
            reveal_strlit(": ");
            reveal_strlit("\n");
        }
        while i < self.fields.len()
            invariant
                0 <= i <= self.fields.len(),
                r@ == paragraph_text(self@.subrange(0, i as int)),
                ": "@ == seq![':', ' '],
                "\n"@ == seq!['\n'],
            decreases self.fields.len() - i,
        {
            proof {
                assert(self@.subrange(0, i as int + 1).drop_last() =~= self@.subrange(0, i as int));
            }
            r.append(self.fields[i].0.as_str());
            r.append(": ");
            r.append(self.fields[i].1.as_str());
            r.append("\n");
            i = i + 1;
        }
        proof {
            assert(self@.subrange(0, i as int) =~= self@);
        }
        r
    }
}

impl ControlFile {
    /// A control file with no paragraphs.
    pub fn new() -> (r: ControlFile)
        ensures
            r@ == Seq::<Fields>::empty(),
    {
        ControlFile { paragraphs: Vec::new() }
    }

    /// Appends a paragraph.
    pub fn add_paragraph(&mut self, p: ControlParagraph)
        ensures
            final(self)@ == old(self)@.push(p@),
    {
        let ghost v = p@;
        self.paragraphs.push(p);
        proof {
            assert(self@ =~= old(self)@.push(v));
        }
    }

    /// The file's text: the paragraphs in order, a blank line between each.
    pub fn render(&self) -> (r: String)
        ensures
            r@ == control_text(self@),
    {
        let mut r = String::new();
        let mut i: usize = 0;
        proof {
            reveal_strlit("\n");
        }
        while i < self.paragraphs.len()
            invariant
                0 <= i <= self.paragraphs.len(),
                r@ == control_text(self@.subrange(0, i as int)),
                "\n"@ == seq!['\n'],
            decreases self.paragraphs.len() - i,
        {
            proof {
                assert(self@.subrange(0, i as int + 1).drop_last() =~= self@.subrange(0, i as int));
            }
            if i > 0 {
                r.append("\n");
            }
            let t = self.paragraphs[i].render();
            r.append(t.as_str());
            i = i + 1;
        }
        proof {
            assert(self@.subrange(0, i as int) =~= self@);
        }
        r
    }
}

} // verus!
