//! The modal dialog.  A [`ViewBuilder`] accumulates a title, body lines and a
//! row of single-key actions; [`dialog_lines`] lays the content out, and
//! [`dialog_accept`] is the dialog's one decision: an input event ends the
//! wait exactly when its key is one of the declared actions.

use vstd::prelude::*;

verus! {

/// A key the dialog can react to.  `Other` stands for every event that is
/// neither a character key nor the enter key; such an event can arrive from
/// the terminal but can never be declared as an action.
#[derive(Clone, Copy, Debug, PartialEq, Eq, Structural)]
pub enum Key {
    Char(char),
    Enter,
    Other,
}

/// Ascii-uppercase a character: `'a'..='z'` map to the corresponding
/// upper-case letter, every other character is unchanged.
pub open spec fn ascii_upper_spec(c: char) -> char {
    let u = c as u32;
    if 97 <= u && u <= 122 {
        ((u - 32) as u32) as char
    } else {
        c
    }
}

/// Ascii-uppercase a character, as the action row shows character keys.
fn ascii_upper(c: char) -> (r: char)
    ensures
        r == ascii_upper_spec(c),
{
    let u = c as u32;
    if 97 <= u && u <= 122 {
        ((u - 32) as u8) as char
    } else {
        c
    }
}

/// Relies on `String::push`: appends the given character to the end of the
/// string.
#[verifier::external_body]
fn push_char(s: &mut String, c: char)
    ensures
        final(s)@ == old(s)@.push(c),
{
    s.push(c);
}

/// How an action's key is shown in the action row: the upper-cased character
/// for a character key, a literal `<enter>` token for the enter key.
pub open spec fn key_token(code: Key) -> Seq<char> {
    match code {
        Key::Char(c) => seq![ascii_upper_spec(c)],
        Key::Enter => "<enter>"@,
        Key::Other => Seq::<char>::empty(),
    }
}

/// The joined action row: `KEY: label` entries separated by `", "`.
pub open spec fn actions_line_spec(actions: Seq<(Key, String)>) -> Seq<char>
    decreases actions.len(),
{
    if actions.len() == 0 {
        Seq::<char>::empty()
    } else {
        let rest = actions_line_spec(actions.drop_last());
        let sep: Seq<char> = if actions.len() == 1 {
            Seq::<char>::empty()
        } else {
            ", "@
        };
        rest + sep + key_token(actions.last().0) + ": "@ + actions.last().1@
    }
}

/// Clamp a content measure into the `u16` the bounding box is stored in.
pub open spec fn clamp_u16(w: int) -> u16 {
    if w >= 65535 {
        65535u16
    } else {
        w as u16
    }
}

/// How many columns an action contributes beyond its label: the key token
/// and the `": "` that follows it.
pub open spec fn key_width(code: Key) -> int {
    match code {
        Key::Char(_) => 3,
        Key::Enter => 9,
        Key::Other => 0,
    }
}

/// Accumulates the content of one modal dialog: an optional title, the body
/// lines in order, and the declared actions in order.  `width` and `height`
/// are the minimum bounding box of the content added so far.
#[derive(Debug, PartialEq)]
pub struct ViewBuilder {
    pub width: u16,
    pub height: u16,
    pub title: Option<String>,
    pub lines: Vec<String>,
    pub actions: Vec<(Key, String)>,
}

impl Default for ViewBuilder {
    /// An empty dialog: no title, no lines, no actions, zero-sized box.
    fn default() -> (r: ViewBuilder)
        ensures
            r.width == 0,
            r.height == 0,
            r.title is None,
            r.lines@ == Seq::<String>::empty(),
            r.actions@ == Seq::<(Key, String)>::empty(),
    {
        ViewBuilder { width: 0, height: 0, title: None, lines: Vec::new(), actions: Vec::new() }
    }
}

impl ViewBuilder {
    /// Set the dialog's title; everything else is untouched.
    pub fn title(self, text: String) -> (r: ViewBuilder)
        ensures
            r.title == Some(text),
            r.width == self.width,
            r.height == self.height,
            r.lines == self.lines,
            r.actions == self.actions,
    {
        let ViewBuilder { width, height, title: _, lines, actions } = self;
        ViewBuilder { width, height, title: Some(text), lines, actions }
    }

    /// Append one body line.  The line makes the box one row taller and at
    /// least two columns wider than the text itself.
    pub fn text(self, text: String) -> (r: ViewBuilder)
        ensures
            r.lines@ == self.lines@.push(text),
            r.title == self.title,
            r.actions == self.actions,
            r.height == clamp_u16(self.height + 1),
            r.width == (if clamp_u16(text@.len() as int + 2) > self.width {
                clamp_u16(text@.len() as int + 2)
            } else {
                self.width
            }),
    {
        let ViewBuilder { width, height, title, mut lines, actions } = self;
        let len: usize = text.as_str().unicode_len();
        let l32: u32 = if len >= 65535 {
            65535u32
        } else {
            len as u32
        };
        let cand32: u32 = l32 + 2;
        let cand: u16 = if cand32 >= 65535 {
            65535u16
        } else {
            cand32 as u16
        };
        let new_width: u16 = if cand > width {
            cand
        } else {
            width
        };
        let new_height: u16 = if height >= 65535 {
            65535u16
        } else {
            height + 1
        };
        lines.push(text);
        ViewBuilder { width: new_width, height: new_height, title, lines, actions }
    }

    /// Declare an action: a key and its label.  The first action makes the
    /// box one row taller (the action row); every further one only widens it
    /// by its `", "`-separated entry.
    pub fn action(self, code: Key, text: String) -> (r: ViewBuilder)
        requires
            !(code is Other),
        ensures
            r.actions@ == self.actions@.push((code, text)),
            r.title == self.title,
            r.lines == self.lines,
            r.height == (if self.actions@.len() == 0 {
                clamp_u16(self.height + 1)
            } else {
                self.height
            }),
            r.width == ({
                let entry = text@.len() + key_width(code) + (if self.actions@.len() == 0 {
                    0int
                } else {
                    2int
                });
                if clamp_u16(entry) > self.width {
                    clamp_u16(entry)
                } else {
                    self.width
                }
            }),
    {
        let ViewBuilder { width, height, title, lines, mut actions } = self;
        let len: usize = text.as_str().unicode_len();
        let l32: u32 = if len >= 65535 {
            65535u32
        } else {
            len as u32
        };
        let base: u32 = match code {
            Key::Char(_) => 3,
            Key::Enter => 9,
            Key::Other => 0,
        };
        let extra: u32 = if actions.len() == 0 {
            0
        } else {
            2
        };
        let cand32: u32 = l32 + base + extra;
        let cand: u16 = if cand32 >= 65535 {
            65535u16
        } else {
            cand32 as u16
        };
        let new_width: u16 = if cand > width {
            cand
        } else {
            width
        };
        let new_height: u16 = if actions.len() == 0 {
            if height >= 65535 {
                65535u16
            } else {
                height + 1
            }
        } else {
            height
        };
        actions.push((code, text));
        ViewBuilder { width: new_width, height: new_height, title, lines, actions }
    }
}

/// Render the joined action row of a dialog.
pub fn actions_line(actions: &Vec<(Key, String)>) -> (r: String)
    ensures
        r@ == actions_line_spec(actions@),
{
    let mut acc = String::new();
    let mut i: usize = 0;
    while i < actions.len()
        invariant
            i <= actions@.len(),
            acc@ == actions_line_spec(actions@.subrange(0, i as int)),
        decreases actions@.len() - i,
    {
        let ghost prev = acc@;
        if i != 0 {
            acc.append(", ");
        }
        let pair: &(Key, String) = &actions[i];
        match pair.0 {
            Key::Char(c) => {
                let upper = ascii_upper(c);
                push_char(&mut acc, upper);
            },
            Key::Enter => {
                acc.append("<enter>");
            },
            Key::Other => {},
        }
        acc.append(": ");
        acc.append(pair.1.as_str());
        proof {
            let pre = actions@.subrange(0, i + 1);
            assert(pre.drop_last() =~= actions@.subrange(0, i as int));
            assert(pre.last() == actions@[i as int]);
            let sep: Seq<char> = if i == 0 {
                Seq::<char>::empty()
            } else {
                ", "@
            };
            assert(acc@ =~= prev + sep + key_token(actions@[i as int].0) + ": "@
                + actions@[i as int].1@);
        }
        i += 1;
    }
    proof {
        assert(actions@.subrange(0, actions@.len() as int) =~= actions@);
    }
    acc
}

/// The lines the dialog draws: the body lines and, when any action is
/// declared, a separating blank line followed by the joined action row.
pub fn dialog_lines(builder: &ViewBuilder) -> (r: Vec<String>)
    ensures
        builder.actions@.len() == 0 ==> r@.len() == builder.lines@.len(),
        builder.actions@.len() > 0 ==> r@.len() == builder.lines@.len() + 2,
        forall|i: int|
            0 <= i < builder.lines@.len() ==> (#[trigger] r@[i])@ == builder.lines@[i]@,
        builder.actions@.len() > 0 ==> r@[builder.lines@.len() as int]@ == Seq::<char>::empty(),
        builder.actions@.len() > 0 ==> r@[builder.lines@.len() as int + 1]@ == actions_line_spec(
            builder.actions@,
        ),
{
    let mut r: Vec<String> = Vec::new();
    let mut i: usize = 0;
    while i < builder.lines.len()
        invariant
            i <= builder.lines@.len(),
            r@.len() == i,
            forall|j: int| 0 <= j < i ==> (#[trigger] r@[j])@ == builder.lines@[j]@,
        decreases builder.lines@.len() - i,
    {
        let line: &String = &builder.lines[i];
        r.push(line.clone());
        i += 1;
    }
    if builder.actions.len() > 0 {
        r.push(String::new());
        r.push(actions_line(&builder.actions));
    }
    r
}

/// Whether `code` is one of the declared action keys.
pub open spec fn declared(actions: Seq<(Key, String)>, code: Key) -> bool {
    exists|i: int| 0 <= i < actions.len() && actions[i].0 == code
}

/// One round of the dialog's input wait: the event `code` ends the wait and
/// is returned exactly when it is one of the declared action keys; any other
/// event is discarded and the dialog is shown again unchanged.
pub fn dialog_accept(actions: &Vec<(Key, String)>, code: Key) -> (r: Option<Key>)
    ensures
        r matches Some(k) ==> k == code && declared(actions@, code),
        r is None <==> !declared(actions@, code),
{
    let mut i: usize = 0;
    while i < actions.len()
        invariant
            i <= actions@.len(),
            forall|j: int| 0 <= j < i ==> (#[trigger] actions@[j]).0 != code,
        decreases actions@.len() - i,
    {
        let pair: &(Key, String) = &actions[i];
        if pair.0 == code {
            return Some(code);
        }
        i += 1;
    }
    None
}

} // verus!
