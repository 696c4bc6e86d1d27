use ratatui::layout::{Constraint, Rect};
use vstd::prelude::*;

verus! {

/// Relies on ratatui's `Rect`: a plain struct of four public `u16` fields.
#[verifier::external_type_specification]
pub struct ExRect(Rect);

/// Relies on ratatui's `Constraint`: an enum whose variants hold plain integers.
#[verifier::external_type_specification]
pub struct ExConstraint(Constraint);

/// The columns to display in the hops table, in order, shown or hidden.
#[derive(Debug, Clone, PartialEq, Eq)]
pub struct Columns(Vec<Column>);

/// One column of the hops table.
#[derive(Debug, Clone, Copy, PartialEq, Eq, Structural)]
pub struct Column {
    pub typ: ColumnType,
    pub status: ColumnStatus,
}

#[derive(Debug, Clone, Copy, PartialEq, Eq, Structural)]
pub enum ColumnStatus {
    Shown,
    Hidden,
}

/// A hops table column.
#[derive(Debug, Copy, Clone, PartialEq, Eq, Structural)]
pub enum ColumnType {
    /// The ttl for a hop.
    Ttl,
    /// The hostname for a hop.
    Host,
    /// The packet loss % for a hop.
    LossPct,
    /// The number of probes sent for a hop.
    Sent,
    /// The number of responses received for a hop.
    Received,
    /// The last RTT for a hop.
    Last,
    /// The rolling average RTT for a hop.
    Average,
    /// The best RTT for a hop.
    Best,
    /// The worst RTT for a hop.
    Worst,
    /// The stddev of RTT for a hop.
    StdDev,
    /// The status of a hop.
    Status,
}

/// Table column layout constraints.
#[derive(Debug, Clone, Copy, PartialEq, Eq, Structural)]
pub enum ColumnWidth {
    /// A fixed size column.
    Fixed(u16),
    /// A column that uses the remaining space.
    Variable,
}

pub open spec fn width_of(t: ColumnType) -> ColumnWidth {
    match t {
        ColumnType::Ttl => ColumnWidth::Fixed(4),
        ColumnType::Host => ColumnWidth::Variable,
        ColumnType::LossPct => ColumnWidth::Fixed(8),
        ColumnType::Sent => ColumnWidth::Fixed(7),
        ColumnType::Received => ColumnWidth::Fixed(7),
        ColumnType::Last => ColumnWidth::Fixed(7),
        ColumnType::Average => ColumnWidth::Fixed(7),
        ColumnType::Best => ColumnWidth::Fixed(7),
        ColumnType::Worst => ColumnWidth::Fixed(7),
        ColumnType::StdDev => ColumnWidth::Fixed(8),
        ColumnType::Status => ColumnWidth::Fixed(7),
    }
}

/// The letter that stands for a column type in a columns string.
pub open spec fn code_of(t: ColumnType) -> char {
    match t {
        ColumnType::Ttl => 'h',
        ColumnType::Host => 'o',
        ColumnType::LossPct => 'l',
        ColumnType::Sent => 's',
        ColumnType::Received => 'r',
        ColumnType::Last => 'a',
        ColumnType::Average => 'v',
        ColumnType::Best => 'b',
        ColumnType::Worst => 'w',
        ColumnType::StdDev => 'd',
        ColumnType::Status => 't',
    }
}

/// The heading of a column type.
pub open spec fn heading_of(t: ColumnType) -> Seq<char> {
    match t {
        ColumnType::Ttl => "#"@,
        ColumnType::Host => "Host"@,
        ColumnType::LossPct => "Loss%"@,
        ColumnType::Sent => "Snd"@,
        ColumnType::Received => "Recv"@,
        ColumnType::Last => "Last"@,
        ColumnType::Average => "Avg"@,
        ColumnType::Best => "Best"@,
        ColumnType::Worst => "Wrst"@,
        ColumnType::StdDev => "StDev"@,
        ColumnType::Status => "Sts"@,
    }
}

/// The columns of `s` that are shown, in order.
pub open spec fn shown(s: Seq<Column>) -> Seq<Column>
    decreases s.len(),
{
    if s.len() == 0 {
        Seq::empty()
    } else if s.last().status == ColumnStatus::Shown {
        shown(s.drop_last()).push(s.last())
    } else {
        shown(s.drop_last())
    }
}

/// The summed width of the fixed-width columns of `s`.
pub open spec fn total_fixed_width(s: Seq<Column>) -> int
    decreases s.len(),
{
    if s.len() == 0 {
        0
    } else {
        total_fixed_width(s.drop_last()) + match width_of(s.last().typ) {
            ColumnWidth::Fixed(w) => w as int,
            ColumnWidth::Variable => 0,
        }
    }
}

/// How many columns of `s` take the remaining space.
pub open spec fn variable_count(s: Seq<Column>) -> int
    decreases s.len(),
{
    if s.len() == 0 {
        0
    } else {
        variable_count(s.drop_last()) + if width_of(s.last().typ) is Variable {
            1int
        } else {
            0
        }
    }
}

/// The width given to each variable column of `s` within `width`: what the
/// fixed columns leave, shared evenly.
pub open spec fn variable_width(s: Seq<Column>, width: u16) -> int {
    let left = if width >= total_fixed_width(s) {
        width - total_fixed_width(s)
    } else {
        0
    };
    let count = variable_count(s) % 0x10000;
    left / (if count >= 1 { count } else { 1 })
}

/// The layout constraint of column `c` when variable columns get `vw`.
pub open spec fn constraint_of(c: Column, vw: u16) -> Constraint {
    match width_of(c.typ) {
        ColumnWidth::Fixed(w) => Constraint::Min(w),
        ColumnWidth::Variable => Constraint::Min(vw),
    }
}

/// The columns string of `s`: one letter per column.
pub open spec fn codes(s: Seq<Column>) -> Seq<char> {
    s.map_values(|c: Column| code_of(c.typ))
}

impl View for Columns {
    type V = Seq<Column>;

    closed spec fn view(&self) -> Seq<Column> {
        self.0@
    }
}

impl Columns {
    pub fn new(columns: Vec<Column>) -> (r: Columns)
        ensures
            r@ == columns@,
    {
        Columns(columns)
    }

    /// Column width constraints, one `Min` per shown column.
    ///
    /// A fixed column gets its own width. Each variable column gets what the
    /// fixed columns leave of `rect`'s width, shared evenly between them.
    pub fn constraints(&self, rect: Rect) -> (r: Vec<Constraint>)
        requires
            total_fixed_width(shown(self@)) <= u16::MAX,
        ensures
            r@.len() == shown(self@).len(),
            forall|i: int|
                0 <= i < r@.len() ==> r@[i] == constraint_of(
                    shown(self@)[i],
                    variable_width(shown(self@), rect.width) as u16,
                ),
    {
        let cols = self.columns();
        let ghost s = cols@;
        let mut fixed_sum: u16 = 0;
        let mut count: u16 = 0;
        let mut i: usize = 0;
        while i < cols.len()
            invariant
                s == cols@,
                s == shown(self@),
                total_fixed_width(s) <= u16::MAX,
                i <= s.len(),
                fixed_sum == total_fixed_width(s.take(i as int)),
                count == variable_count(s.take(i as int)) % 0x10000,
            decreases s.len() - i,
        {
            proof {
                assert(s.take(i + 1).drop_last() =~= s.take(i as int));
                lemma_total_fixed_width_prefix(s, i + 1);
                vstd::arithmetic::div_mod::lemma_add_mod_noop(variable_count(s.take(i as int)), 1, 0x10000);
                vstd::arithmetic::div_mod::lemma_mod_twice(variable_count(s.take(i as int)), 0x10000);
                vstd::arithmetic::div_mod::lemma_small_mod(1, 0x10000);
            }
            match cols[i].typ.width() {
                ColumnWidth::Fixed(width) => fixed_sum = fixed_sum + width,
                ColumnWidth::Variable => count = count.wrapping_add(1),
            }
            i += 1;
        }
        assert(s.take(s.len() as int) =~= s);
        let divisor: u16 = if count >= 1 { count } else { 1 };
        let left: u16 = if rect.width >= fixed_sum {
            rect.width - fixed_sum
        } else {
            0
        };
        let shared: u16 = left / divisor;
        assert(count as int == variable_count(s) % 0x10000);
        assert(left as int == (if rect.width >= total_fixed_width(s) { rect.width - total_fixed_width(s) } else { 0 }));
        assert(shared == variable_width(s, rect.width));
        let mut r: Vec<Constraint> = Vec::new();
        let mut j: usize = 0;
        while j < cols.len()
            invariant
                s == cols@,
                j <= s.len(),
                r@.len() == j,
                forall|k: int| 0 <= k < j ==> r@[k] == constraint_of(s[k], shared),
            decreases s.len() - j,
        {
            let c = match cols[j].typ.width() {
                ColumnWidth::Fixed(width) => Constraint::Min(width),
                ColumnWidth::Variable => Constraint::Min(shared),
            };
            r.push(c);
            j += 1;
        }
        r
    }

    /// The shown columns, in order.
    pub fn columns(&self) -> (r: Vec<Column>)
        ensures
            r@ == shown(self@),
    {
        let mut r: Vec<Column> = Vec::new();
        let mut i: usize = 0;
        while i < self.0.len()
            invariant
                i <= self@.len(),
                self@ == self.0@,
                r@ == shown(self@.take(i as int)),
            decreases self@.len() - i,
        {
            assert(self@.take(i + 1).drop_last() =~= self@.take(i as int));
            if self.0[i].status == ColumnStatus::Shown {
                r.push(self.0[i]);
            }
            i += 1;
        }
        assert(self@.take(self@.len() as int) =~= self@);
        r
    }

    /// All columns, shown or hidden, in order.
    pub fn all_columns(&self) -> (r: Vec<Column>)
        ensures
            r@ == self@,
    {
        let mut r: Vec<Column> = Vec::new();
        let mut i: usize = 0;
        while i < self.0.len()
            invariant
                i <= self@.len(),
                self@ == self.0@,
                r@ == self@.take(i as int),
            decreases self@.len() - i,
        {
            r.push(self.0[i]);
            i += 1;
            assert(r@ =~= self@.take(i as int));
        }
        assert(self@.take(self@.len() as int) =~= self@);
        r
    }

    /// Show the column at `index` if it is hidden, hide it if it is shown.
    pub fn toggle(&mut self, index: usize)
        requires
            index < old(self)@.len(),
        ensures
            final(self)@ == old(self)@.update(
                index as int,
                Column {
                    status: if old(self)@[index as int].status == ColumnStatus::Shown {
                        ColumnStatus::Hidden
                    } else {
                        ColumnStatus::Shown
                    },
                    ..old(self)@[index as int]
                },
            ),
    {
        let c = self.0[index];
        let status = if c.status == ColumnStatus::Shown {
            ColumnStatus::Hidden
        } else {
            ColumnStatus::Shown
        };
        self.0.set(index, Column { status, ..c });
    }

    /// Move the column at `index` one place later.
    pub fn move_down(&mut self, index: usize)
        requires
            index + 1 < old(self)@.len(),
        ensures
            final(self)@ == old(self)@.remove(index as int).insert(index + 1, old(self)@[index as int]),
    {
        let len = self.0.len();
        assert(index + 1 < len);
        let next = index + 1;
        let removed = self.0.remove(index);
        self.0.insert(next, removed);
    }

    /// Move the column at `index` one place earlier.
    pub fn move_up(&mut self, index: usize)
        requires
            1 <= index < old(self)@.len(),
        ensures
            final(self)@ == old(self)@.remove(index as int).insert(index - 1, old(self)@[index as int]),
    {
        let removed = self.0.remove(index);
        self.0.insert(index - 1, removed);
    }

    /// The columns string: one letter per column, shown or hidden.
    pub fn to_string(&self) -> (r: String)
        ensures
            r@ == codes(self@),
    {
        let mut chars: Vec<char> = Vec::new();
        let mut i: usize = 0;
        while i < self.0.len()
            invariant
                i <= self@.len(),
                self@ == self.0@,
                chars@ == codes(self@.take(i as int)),
            decreases self@.len() - i,
        {
            chars.push(char::from(self.0[i].typ));
            i += 1;
            assert(chars@ =~= codes(self@.take(i as int)));
        }
        assert(self@.take(self@.len() as int) =~= self@);
        string_from_chars(chars)
    }
}

proof fn lemma_total_fixed_width_prefix(s: Seq<Column>, n: int)
    requires
        0 <= n <= s.len(),
    ensures
        total_fixed_width(s.take(n)) <= total_fixed_width(s),
    decreases s.len(),
{
    if n < s.len() {
        assert(s.drop_last().take(n) =~= s.take(n));
        lemma_total_fixed_width_prefix(s.drop_last(), n);
    } else {
        assert(s.take(n) =~= s);
    }
}

/// Relies on std's `String::from_iter` over chars: the string holds the chars
/// in order.
#[verifier::external_body]
fn string_from_chars(chars: Vec<char>) -> (r: String)
    ensures
        r@ == chars@,
{
    String::from_iter(chars)
}

impl Column {
    /// A shown column of type `typ`.
    pub fn new(typ: ColumnType) -> (r: Column)
        ensures
            r == (Column { typ, status: ColumnStatus::Shown }),
    {
        Column { typ, status: ColumnStatus::Shown }
    }
}

impl ColumnStatus {
    /// How the status reads in the settings: "on" or "off".
    pub fn to_string(&self) -> (r: String)
        ensures
            r@ == (if *self == ColumnStatus::Shown { "on"@ } else { "off"@ }),
    {
        match self {
            ColumnStatus::Shown => {
                proof { reveal_strlit("on"); }
                "on".to_owned()
            },
            ColumnStatus::Hidden => {
                proof { reveal_strlit("off"); }
                "off".to_owned()
            },
        }
    }
}

impl ColumnType {
    /// The width of the column.
    pub fn width(self) -> (r: ColumnWidth)
        ensures
            r == width_of(self),
    {
        match self {
            ColumnType::Ttl => ColumnWidth::Fixed(4),
            ColumnType::Host => ColumnWidth::Variable,
            ColumnType::LossPct => ColumnWidth::Fixed(8),
            ColumnType::Sent => ColumnWidth::Fixed(7),
            ColumnType::Received => ColumnWidth::Fixed(7),
            ColumnType::Last => ColumnWidth::Fixed(7),
            ColumnType::Average => ColumnWidth::Fixed(7),
            ColumnType::Best => ColumnWidth::Fixed(7),
            ColumnType::Worst => ColumnWidth::Fixed(7),
            ColumnType::StdDev => ColumnWidth::Fixed(8),
            ColumnType::Status => ColumnWidth::Fixed(7),
        }
    }

    /// The heading of the column.
    pub fn to_string(&self) -> (r: String)
        ensures
            r@ == heading_of(*self),
    {
        let s: &str = match self {
            ColumnType::Ttl => {
                proof { reveal_strlit("#"); }
                "#"
            },
            ColumnType::Host => {
                proof { reveal_strlit("Host"); }
                "Host"
            },
            ColumnType::LossPct => {
                proof { reveal_strlit("Loss%"); }
                "Loss%"
            },
            ColumnType::Sent => {
                proof { reveal_strlit("Snd"); }
                "Snd"
            },
            ColumnType::Received => {
                proof { reveal_strlit("Recv"); }
                "Recv"
            },
            ColumnType::Last => {
                proof { reveal_strlit("Last"); }
                "Last"
            },
            ColumnType::Average => {
                proof { reveal_strlit("Avg"); }
                "Avg"
            },
            ColumnType::Best => {
                proof { reveal_strlit("Best"); }
                "Best"
            },
            ColumnType::Worst => {
                proof { reveal_strlit("Wrst"); }
                "Wrst"
            },
            ColumnType::StdDev => {
                proof { reveal_strlit("StDev"); }
                "StDev"
            },
            ColumnType::Status => {
                proof { reveal_strlit("Sts"); }
                "Sts"
            },
        };
        s.to_owned()
    }
}

impl From<ColumnType> for char {
    fn from(col_type: ColumnType) -> (r: char) {
        match col_type {
            ColumnType::Ttl => 'h',
            ColumnType::Host => 'o',
            ColumnType::LossPct => 'l',
            ColumnType::Sent => 's',
            ColumnType::Received => 'r',
            ColumnType::Last => 'a',
            ColumnType::Average => 'v',
            ColumnType::Best => 'b',
            ColumnType::Worst => 'w',
            ColumnType::StdDev => 'd',
            ColumnType::Status => 't',
        }
    }
}

impl vstd::std_specs::convert::FromSpecImpl<ColumnType> for char {
    open spec fn obeys_from_spec() -> bool {
        true
    }

    open spec fn from_spec(col_type: ColumnType) -> char {
        code_of(col_type)
    }
}

} // verus!
