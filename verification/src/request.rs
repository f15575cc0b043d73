//! The capability request: which capabilities to generate, and the
//! optional list of bounds to generate them under.
//!
//! A directive is either a list of capabilities, or a list of bounds, a
//! semicolon and a list of capabilities. It is read as the first form
//! wherever that succeeds, and as the second form otherwise.

use vstd::prelude::*;
use crate::capability::Trait;
use crate::error::Error;
use crate::scan::{
    count_marks, find, gap, is_digit, lemma_gap, lemma_run, lemma_spaces, marks, run, skip_name,
    skip_spaces, spaces,
    spec_is_digit, spec_is_name_byte, spec_is_space, COMMA, SEMICOLON,
};
use crate::text::slice_range;

verus! {

/// The longest piece of a bound list that is handed to the parser, in
/// bytes.
pub const MAX_PIECE: usize = 192;

/// The most marks that a piece handed to the parser holds.
pub const MAX_MARKS: usize = 16;

/// Whether a piece of a bound list is handed to the parser. The parser
/// descends once for each level of nesting, and a level begins with a mark
/// or with a keyword: so a piece that is short and holds few marks nests
/// no deeper than a fixed bound.
pub open spec fn admitted(piece: Seq<u8>) -> bool {
    piece.len() <= MAX_PIECE && marks(piece, 0, piece.len() as int) <= MAX_MARKS
}

/// What a piece of text is when read as a constraint clause.
#[derive(Clone, Copy, Debug, PartialEq, Eq, Structural)]
pub enum PredicateKind {
    /// A bound on a type, such as `T: Clone`.
    Type,
    /// A bound on a lifetime, such as `'a: 'b`.
    Lifetime,
    /// A constraint clause of another form.
    Other,
    /// No constraint clause.
    Invalid,
}

/// Calls `syn::parse_str::<syn::WherePredicate>` on `text` and tells which
/// variant came back, `Invalid` where parsing failed or `text` is not
/// UTF-8. Nothing is claimed of the outcome: it is the parser's, and may
/// depend on where the process runs. Texts that may nest deeply are left
/// out, since the parser descends once for each level of nesting.
#[verifier::external_body]
fn where_predicate(text: &[u8]) -> (r: PredicateKind)
    requires
        admitted(text@),
{
    match core::str::from_utf8(text).map(syn::parse_str::<syn::WherePredicate>) {
        Ok(Ok(syn::WherePredicate::Type(_))) => PredicateKind::Type,
        Ok(Ok(syn::WherePredicate::Lifetime(_))) => PredicateKind::Lifetime,
        Ok(Ok(_)) => PredicateKind::Other,
        Ok(Err(_)) => PredicateKind::Invalid,
        Err(_) => PredicateKind::Invalid,
    }
}

/// Calls `syn::parse_str::<syn::Type>` on `text` and tells whether it
/// succeeded; `false` where `text` is not UTF-8. Nothing is claimed of the
/// outcome: it is the parser's, and may depend on where the process runs.
/// Texts that may nest deeply are left out, since the parser descends
/// once for each level of nesting.
#[verifier::external_body]
fn is_type(text: &[u8]) -> (r: bool)
    requires
        admitted(text@),
{
    match core::str::from_utf8(text).map(syn::parse_str::<syn::Type>) {
        Ok(Ok(_)) => true,
        Ok(Err(_)) => false,
        Err(_) => false,
    }
}

/// Asks the parser what a piece of the bound list is: what it is as a
/// constraint clause, and, where it is none, whether it is a type. A
/// piece that is not admitted is not handed to the parser and counts as
/// neither.
pub fn classify(piece: &[u8]) -> (r: (PredicateKind, bool))
    ensures
        !admitted(piece@) ==> r == (PredicateKind::Invalid, false),
        !(r.0 is Invalid) ==> !r.1,
{
    if piece.len() > MAX_PIECE || count_marks(piece) > MAX_MARKS {
        return (PredicateKind::Invalid, false);
    }
    let kind = where_predicate(piece);
    let bare = match kind {
        PredicateKind::Invalid => is_type(piece),
        _ => false,
    };
    (kind, bare)
}

/// Holds a single generic type or type with bound.
#[derive(Debug, PartialEq, Eq)]
pub enum Generic {
    /// Generic type with custom specified bounds, used verbatim.
    CustomBound(Vec<u8>),
    /// Generic type which will be bound by the implemented capability.
    NoBound(Vec<u8>),
}

/// The mathematical content of a [`Generic`].
pub enum GenericView {
    /// A constraint clause, verbatim.
    CustomBound(Seq<u8>),
    /// A bare type.
    NoBound(Seq<u8>),
}

impl View for Generic {
    type V = GenericView;

    open spec fn view(&self) -> GenericView {
        match self {
            Generic::CustomBound(text) => GenericView::CustomBound(text@),
            Generic::NoBound(text) => GenericView::NoBound(text@),
        }
    }
}

/// The contents of a list of generics.
pub open spec fn generic_views(list: Seq<Generic>) -> Seq<GenericView> {
    Seq::new(list.len(), |i: int| list[i]@)
}

impl Generic {
    /// What a piece of the bound list stands for, given what it is as a
    /// constraint clause and whether it is a type: a bound on a type is
    /// kept verbatim, any other constraint clause is refused, and what is
    /// no clause at all must be a type.
    pub open spec fn spec_from_kinds(text: Seq<u8>, kind: PredicateKind, is_type: bool) -> Option<
        GenericView,
    > {
        match kind {
            PredicateKind::Type => Some(GenericView::CustomBound(text)),
            PredicateKind::Lifetime => None,
            PredicateKind::Other => None,
            PredicateKind::Invalid => if is_type {
                Some(GenericView::NoBound(text))
            } else {
                None
            },
        }
    }

    /// Decides what a piece of the bound list stands for, from what it is
    /// as a constraint clause and whether it is a type.
    pub fn from_kinds(text: Vec<u8>, kind: PredicateKind, is_type: bool) -> (r: Option<Generic>)
        ensures
            match Generic::spec_from_kinds(text@, kind, is_type) {
                Some(v) => r matches Some(g) && g@ == v,
                None => r is None,
            },
    {
        match kind {
            PredicateKind::Type => Some(Generic::CustomBound(text)),
            PredicateKind::Lifetime => None,
            PredicateKind::Other => None,
            PredicateKind::Invalid => if is_type {
                Some(Generic::NoBound(text))
            } else {
                None
            },
        }
    }

    /// Reads one piece of the bound list: a constraint clause on a type, or
    /// else a bare type. The piece is first tried as a constraint clause,
    /// since both forms start with a type. Whatever the parser says, a
    /// generic holds the piece as it was written, and a piece that is not
    /// admitted is none.
    pub fn parse(text: &[u8]) -> (r: Option<Generic>)
        ensures
            r matches Some(g) ==> g@ == GenericView::CustomBound(text@) || g@
                == GenericView::NoBound(text@),
            !admitted(text@) ==> r is None,
    {
        let (kind, bare) = classify(text);
        let owned = slice_range(text, 0, text.len());
        assert(owned@ =~= text@);
        Generic::from_kinds(owned, kind, bare)
    }
}

/// What the capability list in `text[i..end]` holds, after the
/// capabilities `acc` that were read before `i`.
///
/// The list is cut at its commas. Each piece must be one name, with blanks
/// around it at most, and the name must be a capability. A blank piece is
/// an error wherever it stands: the list holds at least one capability,
/// and no comma ends it.
pub open spec fn spec_traits(text: Seq<u8>, i: int, end: int, acc: Seq<Trait>) -> Result<
    Seq<Trait>,
    Error,
>
    decreases end - i,
{
    let p = i + gap(text, COMMA, i, end, 0, 0);
    let start = i + spaces(text, i, p);
    let stop = start + run(text, start, p);
    if start == p {
        Err(Error::Syntax { start: i as usize, end: p as usize })
    } else if stop == start || spec_is_digit(text[start]) || stop + spaces(text, stop, p) != p {
        Err(Error::Syntax { start: start as usize, end: p as usize })
    } else {
        match Trait::spec_parse(text, start as usize, stop as usize) {
            Err(e) => Err(e),
            Ok(t) => if p >= end {
                Ok(acc.push(t))
            } else {
                spec_traits(text, p + 1, end, acc.push(t))
            },
        }
    }
}

/// The pieces of the bound list in `text[i..end]`, each by the place where
/// it starts and the place where it ends, after the pieces `acc` that
/// were cut before `i`. The list is cut at the commas that stand outside
/// every bracket.
pub open spec fn spec_pieces(text: Seq<u8>, i: int, end: int, acc: Seq<(usize, usize)>) -> Seq<
    (usize, usize),
>
    decreases end - i,
{
    let p = i + gap(text, COMMA, i, end, 0, 0);
    if p >= end {
        acc.push((i as usize, p as usize))
    } else {
        spec_pieces(text, p + 1, end, acc.push((i as usize, p as usize)))
    }
}

/// Whether each piece lies in a text of `len` bytes.
pub open spec fn pieces_within(pieces: Seq<(usize, usize)>, len: int) -> bool {
    forall|k: int| 0 <= k < pieces.len() ==> (#[trigger] pieces[k]).0 <= pieces[k].1 <= len
}

/// What the capability list behind the semicolon at `semi` holds; a text
/// without such a semicolon is an error at its end.
pub open spec fn spec_tail(text: Seq<u8>, semi: int) -> Result<Seq<Trait>, Error> {
    if semi >= text.len() {
        Err(Error::Syntax { start: text.len() as usize, end: text.len() as usize })
    } else {
        spec_traits(text, semi + 1, text.len() as int, Seq::empty())
    }
}

/// The request that the pieces `pieces[k..]` of a bound list complete,
/// after the generics `acc` of the pieces before them. `kinds` says of
/// each piece what it is as a constraint clause and whether it is a type;
/// `tail` is what the capability list gave.
///
/// The first piece that stands for no generic is an error at its place.
/// Without such a piece an error of the capability list is the result,
/// and else the request with all generics and the capabilities.
pub open spec fn spec_assemble(
    text: Seq<u8>,
    pieces: Seq<(usize, usize)>,
    kinds: Seq<(PredicateKind, bool)>,
    tail: Result<Seq<Trait>, Error>,
    k: int,
    acc: Seq<GenericView>,
) -> Result<DeriveWhereView, Error>
    decreases pieces.len() - k,
{
    if k < 0 || k >= pieces.len() {
        match tail {
            Err(e) => Err(e),
            Ok(traits) => Ok(DeriveWhereView { generics: Some(acc), traits }),
        }
    } else {
        match Generic::spec_from_kinds(
            text.subrange(pieces[k].0 as int, pieces[k].1 as int),
            kinds[k].0,
            kinds[k].1,
        ) {
            None => Err(Error::Syntax { start: pieces[k].0, end: pieces[k].1 }),
            Some(g) => spec_assemble(text, pieces, kinds, tail, k + 1, acc.push(g)),
        }
    }
}

/// Whether `kinds` can be what the parser said of the pieces: one answer
/// for each piece, and for a piece that is not admitted, which the parser
/// is not asked about, the answer that it is neither a constraint clause
/// nor a type.
pub open spec fn answers(
    text: Seq<u8>,
    pieces: Seq<(usize, usize)>,
    kinds: Seq<(PredicateKind, bool)>,
) -> bool {
    &&& kinds.len() == pieces.len()
    &&& forall|k: int|
        0 <= k < pieces.len() && !admitted(
            text.subrange((#[trigger] pieces[k]).0 as int, pieces[k].1 as int),
        ) ==> kinds[k] == (PredicateKind::Invalid, false)
}

/// Reads the capability list that stands in `text[start..end]`.
pub fn parse_traits(text: &[u8], start: usize, end: usize) -> (r: Result<Vec<Trait>, Error>)
    requires
        start <= end <= text.len(),
    ensures
        match spec_traits(text@, start as int, end as int, Seq::empty()) {
            Ok(traits) => r matches Ok(v) && v@ == traits,
            Err(e) => r matches Err(x) && x == e,
        },
{
    let mut acc: Vec<Trait> = Vec::new();
    let mut i: usize = start;
    loop
        invariant
            start <= i <= end <= text.len(),
            spec_traits(text@, i as int, end as int, acc@) == spec_traits(
                text@,
                start as int,
                end as int,
                Seq::empty(),
            ),
        decreases end - i,
    {
        let p = find(text, COMMA, i, end);
        let s = skip_spaces(text, i, p);
        if s == p {
            return Err(Error::Syntax { start: i, end: p });
        }
        let stop = skip_name(text, s, p);
        if stop == s || is_digit(text[s]) || skip_spaces(text, stop, p) != p {
            return Err(Error::Syntax { start: s, end: p });
        }
        match Trait::parse(text, s, stop) {
            Err(e) => {
                return Err(e);
            },
            Ok(t) => {
                acc.push(t);
                if p >= end {
                    return Ok(acc);
                }
                i = p + 1;
            },
        }
    }
}

/// Cuts the bound list that stands in `text[start..end]` into its pieces.
pub fn cut(text: &[u8], start: usize, end: usize) -> (r: Vec<(usize, usize)>)
    requires
        start <= end <= text.len(),
    ensures
        r@ == spec_pieces(text@, start as int, end as int, Seq::empty()),
        pieces_within(r@, end as int),
{
    let mut acc: Vec<(usize, usize)> = Vec::new();
    let mut i: usize = start;
    loop
        invariant
            start <= i <= end <= text.len(),
            pieces_within(acc@, end as int),
            spec_pieces(text@, i as int, end as int, acc@) == spec_pieces(
                text@,
                start as int,
                end as int,
                Seq::empty(),
            ),
        decreases end - i,
    {
        let p = find(text, COMMA, i, end);
        acc.push((i, p));
        if p >= end {
            return acc;
        }
        i = p + 1;
    }
}

/// Holds parsed generics and capabilities.
#[derive(Debug, PartialEq, Eq)]
pub struct DeriveWhere {
    /// Generics for the constraint clause; `None` where the directive has
    /// no bound list.
    pub generics: Option<Vec<Generic>>,
    /// Capabilities to implement, in the order of the directive.
    pub traits: Vec<Trait>,
}

/// The mathematical content of a [`DeriveWhere`].
pub struct DeriveWhereView {
    /// The generics.
    pub generics: Option<Seq<GenericView>>,
    /// The capabilities.
    pub traits: Seq<Trait>,
}

impl View for DeriveWhere {
    type V = DeriveWhereView;

    open spec fn view(&self) -> DeriveWhereView {
        DeriveWhereView {
            generics: match self.generics {
                Some(list) => Some(generic_views(list@)),
                None => None,
            },
            traits: self.traits@,
        }
    }
}

/// The mathematical content of what reading a directive gave.
pub open spec fn outcome_view(r: Result<DeriveWhere, Error>) -> Result<DeriveWhereView, Error> {
    match r {
        Ok(request) => Ok(request@),
        Err(e) => Err(e),
    }
}

/// The mathematical content of what reading a capability list gave.
pub open spec fn tail_view(r: Result<Vec<Trait>, Error>) -> Result<Seq<Trait>, Error> {
    match r {
        Ok(list) => Ok(list@),
        Err(e) => Err(e),
    }
}

impl DeriveWhere {
    /// The place of the semicolon that ends the bound list of `text`: the
    /// first that stands outside every bracket, or the end of the text.
    pub open spec fn spec_semicolon(text: Seq<u8>) -> int {
        gap(text, SEMICOLON, 0, text.len() as int, 0, 0) as int
    }

    /// Whether the directive `text` is refused whatever the parser says of
    /// its pieces: it holds a capability list in neither form, not as a
    /// whole and not behind a semicolon that stands outside every bracket.
    pub open spec fn refused(text: Seq<u8>) -> bool {
        &&& spec_traits(text, 0, text.len() as int, Seq::empty()) is Err
        &&& spec_tail(text, DeriveWhere::spec_semicolon(text)) is Err
    }

    /// Whether `outcome` can be what reading the directive `text` gives.
    ///
    /// Where the whole text is a capability list, the outcome is that list
    /// without generics. Otherwise the text is cut at the first semicolon
    /// that stands outside every bracket, the bound list before it is cut
    /// into pieces, and the outcome is what the pieces and the capability
    /// list behind the semicolon assemble to, for some answers of the
    /// parser about the pieces.
    pub open spec fn reads(text: Seq<u8>, outcome: Result<DeriveWhereView, Error>) -> bool {
        match spec_traits(text, 0, text.len() as int, Seq::empty()) {
            Ok(traits) => outcome == Ok::<DeriveWhereView, Error>(
                DeriveWhereView { generics: None, traits },
            ),
            Err(_) => {
                let semi = DeriveWhere::spec_semicolon(text);
                let pieces = spec_pieces(text, 0, semi, Seq::empty());
                exists|kinds: Seq<(PredicateKind, bool)>| #[trigger]
                    answers(text, pieces, kinds) && outcome == spec_assemble(
                        text,
                        pieces,
                        kinds,
                        spec_tail(text, semi),
                        0,
                        Seq::empty(),
                    )
            },
        }
    }

    /// Assembles the request of a directive in its second form: from the
    /// pieces of its bound list, what the parser said of each piece, and
    /// what its capability list gave.
    pub fn assemble(
        text: &[u8],
        pieces: &Vec<(usize, usize)>,
        kinds: &Vec<(PredicateKind, bool)>,
        traits: Result<Vec<Trait>, Error>,
    ) -> (r: Result<DeriveWhere, Error>)
        requires
            kinds@.len() == pieces@.len(),
            pieces_within(pieces@, text@.len() as int),
        ensures
            outcome_view(r) == spec_assemble(
                text@,
                pieces@,
                kinds@,
                tail_view(traits),
                0,
                Seq::empty(),
            ),
    {
        let ghost tail = tail_view(traits);
        let mut acc: Vec<Generic> = Vec::new();
        let mut k: usize = 0;
        assert(generic_views(acc@) =~= Seq::empty());
        while k < pieces.len()
            invariant
                k <= pieces.len(),
                kinds@.len() == pieces@.len(),
                pieces_within(pieces@, text@.len() as int),
                tail == tail_view(traits),
                spec_assemble(text@, pieces@, kinds@, tail, k as int, generic_views(acc@))
                    == spec_assemble(text@, pieces@, kinds@, tail, 0, Seq::empty()),
            decreases pieces.len() - k,
        {
            let (start, end) = pieces[k];
            let piece = slice_range(text, start, end);
            match Generic::from_kinds(piece, kinds[k].0, kinds[k].1) {
                None => {
                    return Err(Error::Syntax { start, end });
                },
                Some(g) => {
                    let ghost before = generic_views(acc@);
                    acc.push(g);
                    assert(generic_views(acc@) =~= before.push(g@));
                },
            }
            k += 1;
        }
        match traits {
            Err(e) => Err(e),
            Ok(list) => Ok(DeriveWhere { generics: Some(acc), traits: list }),
        }
    }

    /// Parse the directive; it should either be:
    /// - comma separated capabilities
    /// - comma separated generics `;` comma separated capabilities
    ///
    /// What a piece of the bound list is, a constraint clause or a type,
    /// is the parser's to say; all else is decided here.
    pub fn parse(text: &[u8]) -> (r: Result<DeriveWhere, Error>)
        ensures
            DeriveWhere::reads(text@, outcome_view(r)),
            DeriveWhere::refused(text@) ==> r is Err,
            r matches Ok(request) ==> request.traits@.len() > 0,
    {
        proof {
            if DeriveWhere::refused(text@) {
                law_refused(text@);
            }
        }
        let r = DeriveWhere::read(text);
        proof {
            if r is Ok {
                law_request_is_not_empty(text@, r->Ok_0@);
            }
        }
        r
    }

    /// Reads the directive in its first form, or else in its second.
    fn read(text: &[u8]) -> (r: Result<DeriveWhere, Error>)
        ensures
            DeriveWhere::reads(text@, outcome_view(r)),
    {
        let len = text.len();
        match parse_traits(text, 0, len) {
            Ok(traits) => Ok(DeriveWhere { generics: None, traits }),
            Err(_) => {
                let semi = find(text, SEMICOLON, 0, len);
                let pieces = cut(text, 0, semi);
                let mut kinds: Vec<(PredicateKind, bool)> = Vec::new();
                let mut k: usize = 0;
                while k < pieces.len()
                    invariant
                        k <= pieces.len(),
                        kinds@.len() == k,
                        semi <= len == text.len(),
                        pieces_within(pieces@, semi as int),
                        forall|j: int|
                            0 <= j < k && !admitted(
                                text@.subrange((#[trigger] pieces@[j]).0 as int, pieces@[j].1 as int),
                            ) ==> kinds@[j] == (PredicateKind::Invalid, false),
                    decreases pieces.len() - k,
                {
                    let (start, end) = pieces[k];
                    let piece = slice_range(text, start, end);
                    kinds.push(classify(piece.as_slice()));
                    k += 1;
                }
                let traits = if semi >= len {
                    Err(Error::Syntax { start: len, end: len })
                } else {
                    parse_traits(text, semi + 1, len)
                };
                assert(answers(text@, pieces@, kinds@));
                DeriveWhere::assemble(text, &pieces, &kinds, traits)
            },
        }
    }
}

/// Whether the byte can stand in a capability list: a blank, a comma, or a
/// byte of a name.
pub open spec fn is_plain(b: u8) -> bool {
    spec_is_space(b) || spec_is_name_byte(b) || b == COMMA
}

/// What reads as a capability list holds nothing but names, blanks and
/// commas.
pub proof fn lemma_capability_list_is_plain(text: Seq<u8>, i: int, end: int, acc: Seq<Trait>)
    requires
        0 <= i <= end <= text.len(),
        spec_traits(text, i, end, acc) is Ok,
    ensures
        forall|k: int| i <= k < end ==> is_plain(#[trigger] text[k]),
    decreases end - i,
{
    lemma_gap(text, COMMA, i, end, 0, 0);
    let p = i + gap(text, COMMA, i, end, 0, 0);
    lemma_spaces(text, i, p);
    let start = i + spaces(text, i, p);
    lemma_run(text, start, p);
    let stop = start + run(text, start, p);
    lemma_spaces(text, stop, p);
    if p < end {
        lemma_capability_list_is_plain(
            text,
            p + 1,
            end,
            acc.push(Trait::spec_parse(text, start as usize, stop as usize)->Ok_0),
        );
    }
}

/// A capability list that is read holds every capability that was read
/// before, and at least one more.
pub proof fn lemma_capability_list_is_not_empty(text: Seq<u8>, i: int, end: int, acc: Seq<Trait>)
    requires
        spec_traits(text, i, end, acc) is Ok,
    ensures
        spec_traits(text, i, end, acc)->Ok_0.len() > acc.len(),
    decreases end - i,
{
    let p = i + gap(text, COMMA, i, end, 0, 0);
    let start = i + spaces(text, i, p);
    let stop = start + run(text, start, p);
    if p < end {
        lemma_capability_list_is_not_empty(
            text,
            p + 1,
            end,
            acc.push(Trait::spec_parse(text, start as usize, stop as usize)->Ok_0),
        );
    }
}

/// A request that is assembled holds the capabilities of its capability
/// list, and one generic for each piece of its bound list: the piece as
/// it was written, as a custom bound or as a bare type.
pub proof fn lemma_assembled(
    text: Seq<u8>,
    pieces: Seq<(usize, usize)>,
    kinds: Seq<(PredicateKind, bool)>,
    tail: Result<Seq<Trait>, Error>,
    k: int,
    acc: Seq<GenericView>,
)
    requires
        0 <= k <= pieces.len(),
        spec_assemble(text, pieces, kinds, tail, k, acc) is Ok,
    ensures
        ({
            let request = spec_assemble(text, pieces, kinds, tail, k, acc)->Ok_0;
            &&& tail == Ok::<Seq<Trait>, Error>(request.traits)
            &&& request.generics matches Some(list) && list.len() == acc.len() + pieces.len() - k
                && forall|j: int|
                k <= j < pieces.len() ==> {
                    let piece = text.subrange((#[trigger] pieces[j]).0 as int, pieces[j].1 as int);
                    list[acc.len() + j - k] == GenericView::CustomBound(piece) || list[acc.len() + j
                        - k] == GenericView::NoBound(piece)
                }
            &&& forall|j: int| 0 <= j < acc.len() ==> list_of(request)[j] == acc[j]
        }),
    decreases pieces.len() - k,
{
    if k < pieces.len() {
        let piece = text.subrange(pieces[k].0 as int, pieces[k].1 as int);
        let g = Generic::spec_from_kinds(piece, kinds[k].0, kinds[k].1)->Some_0;
        lemma_assembled(text, pieces, kinds, tail, k + 1, acc.push(g));
        let request = spec_assemble(text, pieces, kinds, tail, k, acc)->Ok_0;
        assert(list_of(request)[acc.len() as int] == acc.push(g)[acc.len() as int]);
        assert forall|j: int| 0 <= j < acc.len() implies list_of(request)[j] == acc[j] by {
            assert(acc.push(g)[j] == acc[j]);
        }
    }
}

/// The generics of a request; none where it has no bound list.
pub open spec fn list_of(request: DeriveWhereView) -> Seq<GenericView> {
    match request.generics {
        Some(list) => list,
        None => Seq::empty(),
    }
}

/// Every request that is read asks for at least one capability.
pub proof fn law_request_is_not_empty(text: Seq<u8>, request: DeriveWhereView)
    requires
        DeriveWhere::reads(text, Ok(request)),
    ensures
        request.traits.len() > 0,
{
    let len = text.len() as int;
    match spec_traits(text, 0, len, Seq::empty()) {
        Ok(traits) => {
            lemma_capability_list_is_not_empty(text, 0, len, Seq::empty());
        },
        Err(_) => {
            let semi = DeriveWhere::spec_semicolon(text);
            let pieces = spec_pieces(text, 0, semi, Seq::empty());
            let kinds = choose|kinds: Seq<(PredicateKind, bool)>| #[trigger]
                answers(text, pieces, kinds) && Ok::<DeriveWhereView, Error>(request) == spec_assemble(
                    text,
                    pieces,
                    kinds,
                    spec_tail(text, semi),
                    0,
                    Seq::empty(),
                );
            lemma_assembled(text, pieces, kinds, spec_tail(text, semi), 0, Seq::empty());
            lemma_capability_list_is_not_empty(text, semi + 1, len, Seq::empty());
        },
    }
}

/// Every request that is read stands in the directive in one of its two
/// forms: without generics its capabilities are what the whole text
/// holds as a capability list; with generics a semicolon stands outside
/// every bracket, and its capabilities are what the text behind the
/// first such semicolon holds as a capability list.
pub proof fn law_request_follows_the_grammar(text: Seq<u8>, request: DeriveWhereView)
    requires
        DeriveWhere::reads(text, Ok(request)),
    ensures
        request.generics is None ==> spec_traits(text, 0, text.len() as int, Seq::empty()) == Ok::<
            Seq<Trait>,
            Error,
        >(request.traits),
        request.generics is Some ==> DeriveWhere::spec_semicolon(text) < text.len() && spec_traits(
            text,
            DeriveWhere::spec_semicolon(text) + 1,
            text.len() as int,
            Seq::empty(),
        ) == Ok::<Seq<Trait>, Error>(request.traits),
{
    let len = text.len() as int;
    match spec_traits(text, 0, len, Seq::empty()) {
        Ok(traits) => {},
        Err(_) => {
            let semi = DeriveWhere::spec_semicolon(text);
            let pieces = spec_pieces(text, 0, semi, Seq::empty());
            let kinds = choose|kinds: Seq<(PredicateKind, bool)>| #[trigger]
                answers(text, pieces, kinds) && Ok::<DeriveWhereView, Error>(request)
                    == spec_assemble(text, pieces, kinds, spec_tail(text, semi), 0, Seq::empty());
            lemma_assembled(text, pieces, kinds, spec_tail(text, semi), 0, Seq::empty());
        },
    }
}

/// A directive that holds a capability list in neither form is read as
/// an error, whatever the parser says of its pieces.
pub proof fn law_refused(text: Seq<u8>)
    requires
        DeriveWhere::refused(text),
    ensures
        forall|outcome: Result<DeriveWhereView, Error>| #[trigger]
            DeriveWhere::reads(text, outcome) ==> outcome is Err,
{
    assert forall|outcome: Result<DeriveWhereView, Error>| #[trigger]
        DeriveWhere::reads(text, outcome) implies outcome is Err by {
        if outcome is Ok {
            law_request_follows_the_grammar(text, outcome->Ok_0);
        }
    }
}

/// The two forms of a directive cannot be confused: a directive that is
/// read as a capability list holds no semicolon and no colon, so it is no
/// bound list with its separator, nor a constraint clause.
pub proof fn law_forms_are_distinct(text: Seq<u8>, request: DeriveWhereView)
    requires
        DeriveWhere::reads(text, Ok(request)),
        request.generics is None,
    ensures
        forall|k: int| 0 <= k < text.len() ==> #[trigger] text[k] != SEMICOLON && text[k] != 58,
{
    let len = text.len() as int;
    match spec_traits(text, 0, len, Seq::empty()) {
        Ok(traits) => {
            lemma_capability_list_is_plain(text, 0, len, Seq::empty());
            assert forall|k: int| 0 <= k < text.len() implies #[trigger] text[k] != SEMICOLON
                && text[k] != 58 by {
                assert(is_plain(text[k]));
            }
        },
        Err(_) => {
            let semi = DeriveWhere::spec_semicolon(text);
            let pieces = spec_pieces(text, 0, semi, Seq::empty());
            let kinds = choose|kinds: Seq<(PredicateKind, bool)>| #[trigger]
                answers(text, pieces, kinds) && Ok::<DeriveWhereView, Error>(request) == spec_assemble(
                    text,
                    pieces,
                    kinds,
                    spec_tail(text, semi),
                    0,
                    Seq::empty(),
                );
            lemma_assembled(text, pieces, kinds, spec_tail(text, semi), 0, Seq::empty());
        },
    }
}

} // verus!
