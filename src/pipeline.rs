use vstd::prelude::*;
use crate::filter::{passes, passes_all};
use crate::json::{opt_view, pair_texts, parsed_of, texts, Json, JsonV};
use crate::project::{project, projected, Projection};
use crate::render::{render, rendered, Rendered, RenderedV};

verus! {

broadcast use vstd::std_specs::vec::group_vec_axioms;

/// What the pipeline applies to every line.
#[derive(Debug, PartialEq)]
pub struct Config {
    /// `(dotted path, expected text)` pairs that a record must all meet.
    pub predicates: Vec<(String, String)>,
    pub projection: Projection,
    /// A separator line before each shown record.
    pub separator: bool,
    /// A blank line after each shown record, and after its separator.
    pub padding: bool,
}

/// A configuration that cannot run.
#[derive(PartialEq, Eq, Structural, Debug, Clone, Copy)]
pub enum ConfigError {
    /// A selector and a key list were both given.
    SelectorWithKeys,
}

impl Config {
    /// The configuration for these options: a key list where keys are given,
    /// else a selector where one is given, else the full record.
    pub fn new(
        predicates: Vec<(String, String)>,
        selector: Option<String>,
        keys: Vec<String>,
        separator: bool,
        padding: bool,
    ) -> (r: Result<Config, ConfigError>)
        ensures
            r is Err <==> (selector is Some && keys@.len() > 0),
            r matches Ok(c) ==> {
                &&& c.predicates == predicates
                &&& c.separator == separator
                &&& c.padding == padding
                &&& keys@.len() > 0 ==> c.projection == Projection::KeyList(keys)
                &&& (keys@.len() == 0 && selector is Some) ==> c.projection
                    == Projection::Selector(selector->Some_0)
                &&& (keys@.len() == 0 && selector is None) ==> c.projection == Projection::Full
            },
    {
        let projection = if keys.len() > 0 {
            if selector.is_some() {
                return Err(ConfigError::SelectorWithKeys);
            }
            Projection::KeyList(keys)
        } else {
            match selector {
                Some(s) => Projection::Selector(s),
                None => Projection::Full,
            }
        };
        Ok(Config { predicates, projection, separator, padding })
    }
}

/// What becomes of one input line.
#[derive(Debug, PartialEq)]
pub enum LineOutcome {
    /// The line is no JSON and is shown as it is.
    PassThrough(String),
    /// The record fails the predicates and is not shown.
    Dropped,
    /// The record passes; this is what is shown of it.
    Show(Rendered),
}

/// The model of a line's outcome.
pub enum LineOutcomeV {
    PassThrough(Seq<char>),
    Dropped,
    Show(RenderedV),
}

impl View for LineOutcome {
    type V = LineOutcomeV;

    open spec fn view(&self) -> LineOutcomeV {
        match self {
            LineOutcome::PassThrough(s) => LineOutcomeV::PassThrough(s@),
            LineOutcome::Dropped => LineOutcomeV::Dropped,
            LineOutcome::Show(r) => LineOutcomeV::Show(r@),
        }
    }
}

/// What becomes of a line, given what it parsed to.
pub open spec fn outcome_of(line: Seq<char>, parsed: Option<JsonV>, cfg: Config) -> LineOutcomeV {
    match parsed {
        None => LineOutcomeV::PassThrough(line),
        Some(v) => if passes_all(v, pair_texts(cfg.predicates@)) {
            LineOutcomeV::Show(rendered(projected(v, cfg.projection)))
        } else {
            LineOutcomeV::Dropped
        },
    }
}

/// What becomes of `line`, given `parsed`, what it parsed to (`None` where it is no JSON).
pub fn handle_parsed(line: &String, parsed: Option<Json>, cfg: &Config) -> (r: LineOutcome)
    ensures
        r@ == outcome_of(line@, opt_view(parsed), *cfg),
{
    match parsed {
        None => LineOutcome::PassThrough(line.clone()),
        Some(record) => {
            if passes(&record, &cfg.predicates) {
                let shown = project(&record, &cfg.projection);
                LineOutcome::Show(render(&shown))
            } else {
                LineOutcome::Dropped
            }
        },
    }
}

/// What becomes of one input line.
pub fn process_line(line: &String, cfg: &Config) -> (r: LineOutcome)
    ensures
        r@ == outcome_of(line@, parsed_of(line@), *cfg),
{
    let parsed = Json::parse(line.as_str());
    handle_parsed(line, parsed, cfg)
}

/// One piece of printed output.
#[derive(Debug, PartialEq)]
pub enum Piece {
    /// A separator line across the terminal.
    Separator,
    /// An empty line.
    Blank,
    /// Text printed as it is.
    Plain(String),
    /// JSON text, which a terminal may colour.
    Structured(String),
}

/// The model of a printed piece.
pub enum PieceV {
    Separator,
    Blank,
    Plain(Seq<char>),
    Structured(Seq<char>),
}

impl View for Piece {
    type V = PieceV;

    open spec fn view(&self) -> PieceV {
        match self {
            Piece::Separator => PieceV::Separator,
            Piece::Blank => PieceV::Blank,
            Piece::Plain(s) => PieceV::Plain(s@),
            Piece::Structured(s) => PieceV::Structured(s@),
        }
    }
}

/// A shown record with its separator and padding.
pub open spec fn framed(p: PieceV, separator: bool, padding: bool) -> Seq<PieceV> {
    let head = if separator {
        if padding {
            seq![PieceV::Separator, PieceV::Blank]
        } else {
            seq![PieceV::Separator]
        }
    } else {
        Seq::empty()
    };
    let tail = if padding {
        seq![PieceV::Blank]
    } else {
        Seq::empty()
    };
    head + seq![p] + tail
}

/// The printed pieces for the outcome of a line.
pub open spec fn pieces_of(o: LineOutcomeV, separator: bool, padding: bool) -> Seq<PieceV> {
    match o {
        LineOutcomeV::PassThrough(l) => seq![PieceV::Plain(l)],
        LineOutcomeV::Show(RenderedV::PlainString(s)) => framed(PieceV::Plain(s), separator, padding),
        LineOutcomeV::Show(RenderedV::StructuredText(s)) => framed(
            PieceV::Structured(s),
            separator,
            padding,
        ),
        _ => Seq::empty(),
    }
}

/// The models of a list of pieces.
pub open spec fn piece_views(p: Seq<Piece>) -> Seq<PieceV> {
    p.map_values(|x: Piece| x@)
}

/// The printed pieces for the outcome of a line.
pub fn pieces_for(outcome: LineOutcome, separator: bool, padding: bool) -> (r: Vec<Piece>)
    ensures
        piece_views(r@) == pieces_of(outcome@, separator, padding),
{
    let ghost o = outcome@;
    let mut out: Vec<Piece> = Vec::new();
    let shown = match outcome {
        LineOutcome::PassThrough(l) => {
            out.push(Piece::Plain(l));
            assert(piece_views(out@) =~= pieces_of(o, separator, padding));
            return out;
        },
        LineOutcome::Dropped => {
            assert(piece_views(out@) =~= pieces_of(o, separator, padding));
            return out;
        },
        LineOutcome::Show(Rendered::Suppressed) => {
            assert(piece_views(out@) =~= pieces_of(o, separator, padding));
            return out;
        },
        LineOutcome::Show(Rendered::PlainString(s)) => Piece::Plain(s),
        LineOutcome::Show(Rendered::StructuredText(s)) => Piece::Structured(s),
    };
    let ghost sv = shown@;
    if separator {
        out.push(Piece::Separator);
        if padding {
            out.push(Piece::Blank);
        }
    }
    out.push(shown);
    if padding {
        out.push(Piece::Blank);
    }
    assert(piece_views(out@) =~= framed(sv, separator, padding));
    out
}

/// The printed pieces for a whole stream of lines, in order.
pub open spec fn stream_of(lines: Seq<Seq<char>>, cfg: Config) -> Seq<PieceV>
    decreases lines.len(),
{
    if lines.len() == 0 {
        Seq::empty()
    } else {
        stream_of(lines.drop_last(), cfg) + pieces_of(
            outcome_of(lines.last(), parsed_of(lines.last()), cfg),
            cfg.separator,
            cfg.padding,
        )
    }
}

/// Runs the pipeline over captured lines and returns what it prints, in order.
pub fn run_lines(lines: &Vec<String>, cfg: &Config) -> (r: Vec<Piece>)
    ensures
        piece_views(r@) == stream_of(texts(lines@), *cfg),
{
    let ghost ts = texts(lines@);
    let mut out: Vec<Piece> = Vec::new();
    let mut i: usize = 0;
    while i < lines.len()
        invariant
            i <= lines@.len(),
            ts == texts(lines@),
            piece_views(out@) == stream_of(ts.take(i as int), *cfg),
        decreases lines@.len() - i,
    {
        let outcome = process_line(&lines[i], cfg);
        let mut more = pieces_for(outcome, cfg.separator, cfg.padding);
        let ghost before = out@;
        let ghost added = more@;
        out.append(&mut more);
        assert(ts.take(i + 1).drop_last() =~= ts.take(i as int));
        assert(piece_views(out@) =~= piece_views(before) + piece_views(added));
        i = i + 1;
    }
    assert(ts.take(lines@.len() as int) =~= ts);
    out
}

/// Each line's output depends on that line alone: the output of a stream is
/// the output of its first part followed by that of the rest, so a captured
/// stream replayed, whole or in parts, prints the same pieces in the same order.
pub proof fn lemma_stream_output_is_per_line(a: Seq<Seq<char>>, b: Seq<Seq<char>>, cfg: Config)
    ensures
        stream_of(a + b, cfg) == stream_of(a, cfg) + stream_of(b, cfg),
    decreases b.len(),
{
    if b.len() == 0 {
        assert(a + b =~= a);
        assert(stream_of(a, cfg) + stream_of(b, cfg) =~= stream_of(a, cfg));
    } else {
        lemma_stream_output_is_per_line(a, b.drop_last(), cfg);
        assert((a + b).drop_last() =~= a + b.drop_last());
        assert((a + b).last() == b.last());
    }
}

} // verus!
