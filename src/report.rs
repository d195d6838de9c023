use vstd::prelude::*;

verus! {

/// The release in which a type's layout last changed in a breaking way.
#[derive(Debug, Clone, Copy, PartialEq, Eq, Structural)]
pub struct Version {
    pub major: u16,
    pub minor: u16,
    pub patch: u16,
    pub dirty: bool,
}

impl Version {
    /// Every component zero and not dirty: no breaking change recorded.
    pub open spec fn is_never(self) -> bool {
        self.major == 0 && self.minor == 0 && self.patch == 0 && !self.dirty
    }

    /// The version that stands for "never broken".
    pub fn never() -> (r: Version)
        ensures
            r.is_never(),
    {
        Version { major: 0, minor: 0, patch: 0, dirty: false }
    }
}

impl Default for Version {
    fn default() -> (r: Version)
        ensures
            r.is_never(),
    {
        Version { major: 0, minor: 0, patch: 0, dirty: false }
    }
}

/// The version built by `never` equals the default one, and no version with a
/// non-zero component or a dirty flag equals either.
pub proof fn lemma_never_is_default(n: Version, d: Version, v: Version)
    requires
        n.is_never(),
        d.is_never(),
    ensures
        n == d,
        (v.major != 0 || v.minor != 0 || v.patch != 0 || v.dirty) ==> v != n,
{
}

/// What kind of type a report describes.
#[derive(Debug, Clone, Copy, PartialEq, Eq)]
pub enum TyTy {
    Struct,
    /// A tagged union; carries the name of its variant.
    Enum(&'static str),
    Union,
}

/// The layout report of one type: its identity, its fields and its last break.
#[derive(Debug, Clone, Copy)]
pub struct TypeReport {
    pub name: &'static str,
    pub module: &'static str,
    /// The first field of the type, absent where it has none.
    pub fields: Option<&'static FieldReport>,
    pub last_break: Version,
    pub tyty: TyTy,
}

/// One field of a reported type, linked to the next field of the same type.
#[derive(Debug, Clone, Copy)]
pub struct FieldReport {
    pub name: &'static str,
    pub ty: &'static TypeReport,
    pub next_field: Option<&'static FieldReport>,
}

/// The field records reachable from `head` through `next_field`, in order.
pub open spec fn field_chain(head: Option<&'static FieldReport>) -> Seq<FieldReport>
    decreases head,
{
    match head {
        None => Seq::empty(),
        Some(f) => seq![*f].add(field_chain(f.next_field)),
    }
}

impl TypeReport {
    /// The fields of the type, in declaration order.
    pub open spec fn field_seq(self) -> Seq<FieldReport> {
        field_chain(self.fields)
    }

    /// A fresh cursor over the fields of the type.
    pub fn fields(&self) -> (r: Fields)
        ensures
            r@ == self.field_seq(),
            self.fields.is_none() ==> r@.len() == 0,
    {
        Fields(self.fields)
    }

    /// Walks a fresh cursor to its end and returns every field it yielded.
    pub fn field_list(&self) -> (r: Vec<&'static FieldReport>)
        ensures
            r@.len() == self.field_seq().len(),
            forall|i: int| 0 <= i < r@.len() ==> *r@[i] == self.field_seq()[i],
    {
        let mut cursor = self.fields();
        let mut out: Vec<&'static FieldReport> = Vec::new();
        loop
            invariant
                out@.len() + cursor@.len() == self.field_seq().len(),
                forall|i: int| 0 <= i < out@.len() ==> *out@[i] == self.field_seq()[i],
                cursor@ == self.field_seq().subrange(out@.len() as int, self.field_seq().len() as int),
            decreases cursor@.len(),
        {
            match cursor.next() {
                None => {
                    return out;
                },
                Some(f) => {
                    out.push(f);
                },
            }
        }
    }
}

/// A forward cursor over the fields of one report.
pub struct Fields(Option<&'static FieldReport>);

impl View for Fields {
    type V = Seq<FieldReport>;

    closed spec fn view(&self) -> Seq<FieldReport> {
        field_chain(self.0)
    }
}

impl Fields {
    /// Yields the field under the cursor and moves on to the one after it;
    /// once the fields are spent, yields nothing and stays spent.
    pub fn next(&mut self) -> (r: Option<&'static FieldReport>)
        ensures
            old(self)@.len() == 0 ==> r.is_none() && final(self)@.len() == 0,
            old(self)@.len() > 0 ==> (match r {
                Some(f) => *f == old(self)@[0] && final(self)@ == old(self)@.drop_first(),
                None => false,
            }),
    {
        match self.0 {
            None => None,
            Some(field) => {
                proof {
                    assert(field_chain(self.0).drop_first() =~= field_chain(field.next_field));
                }
                self.0 = field.next_field;
                Some(field)
            },
        }
    }
}

} // verus!
