//! The inline keyboard attached to every request: rows of link buttons.
use vstd::prelude::*;
use crate::args::{button_view, ButtonSpec};

verus! {

/// A button that opens a URL.
pub struct LinkButton {
    pub text: String,
    pub url: String,
}

/// Rows of link buttons, none of them empty.
pub struct ReplyMarkup {
    pub rows: Vec<Vec<LinkButton>>,
}

pub open spec fn link_view(b: LinkButton) -> (Seq<char>, Seq<char>) {
    (b.text@, b.url@)
}

pub open spec fn row_view(r: Seq<LinkButton>) -> Seq<(Seq<char>, Seq<char>)> {
    r.map_values(|b: LinkButton| link_view(b))
}

pub open spec fn rows_view(rs: Seq<Vec<LinkButton>>) -> Seq<Seq<(Seq<char>, Seq<char>)>> {
    rs.map_values(|r: Vec<LinkButton>| row_view(r@))
}

/// The rows completed so far and the row under construction, after the
/// given button options: a break closes the current row unless it is empty.
pub open spec fn layout_state(specs: Seq<ButtonSpec>) -> (
    Seq<Seq<(Seq<char>, Seq<char>)>>,
    Seq<(Seq<char>, Seq<char>)>,
)
    decreases specs.len(),
{
    if specs.len() == 0 {
        (Seq::empty(), Seq::empty())
    } else {
        let (rows, cur) = layout_state(specs.drop_last());
        match button_view(specs.last()) {
            Some(pair) => (rows, cur.push(pair)),
            None => if cur.len() == 0 {
                (rows, cur)
            } else {
                (rows.push(cur), Seq::empty())
            },
        }
    }
}

/// The rows of buttons that the options describe, in order, empty rows left out.
pub open spec fn layout_rows(specs: Seq<ButtonSpec>) -> Seq<Seq<(Seq<char>, Seq<char>)>> {
    let (rows, cur) = layout_state(specs);
    if cur.len() == 0 {
        rows
    } else {
        rows.push(cur)
    }
}

/// Lays out the button options as rows; there is no keyboard when there is no button.
pub fn reply_markup(buttons: &Vec<ButtonSpec>) -> (r: Option<ReplyMarkup>)
    ensures
        match r {
            None => layout_rows(buttons@).len() == 0,
            Some(m) => layout_rows(buttons@).len() > 0 && rows_view(m.rows@) == layout_rows(
                buttons@,
            ),
        },
{
    let mut rows: Vec<Vec<LinkButton>> = Vec::new();
    let mut cur: Vec<LinkButton> = Vec::new();
    let mut i: usize = 0;
    while i < buttons.len()
        invariant
            0 <= i <= buttons@.len(),
            (rows_view(rows@), row_view(cur@)) == layout_state(buttons@.subrange(0, i as int)),
        decreases buttons@.len() - i,
    {
        let ghost pre = buttons@.subrange(0, i as int);
        proof {
            assert(buttons@.subrange(0, i + 1).drop_last() =~= pre);
        }
        match &buttons[i] {
            ButtonSpec::Link { text, url } => {
                cur.push(LinkButton { text: text.clone(), url: url.clone() });
                proof {
                    assert(row_view(cur@) =~= layout_state(pre).1.push((text@, url@)));
                }
            },
            ButtonSpec::RowBreak => {
                if cur.len() > 0 {
                    let ghost done = cur@;
                    rows.push(cur);
                    cur = Vec::new();
                    proof {
                        assert(rows_view(rows@) =~= layout_state(pre).0.push(row_view(done)));
                        assert(row_view(cur@) =~= Seq::<(Seq<char>, Seq<char>)>::empty());
                    }
                }
            },
        }
        i = i + 1;
    }
    proof {
        assert(buttons@.subrange(0, buttons@.len() as int) =~= buttons@);
    }
    if cur.len() > 0 {
        let ghost last = cur@;
        rows.push(cur);
        proof {
            assert(rows_view(rows@) =~= layout_state(buttons@).0.push(row_view(last)));
        }
    }
    if rows.len() == 0 {
        None
    } else {
        Some(ReplyMarkup { rows })
    }
}

} // verus!
