//! View composer: turns the model state into an ordered sequence of
//! renderable rows, each one line of text with a style tag. The painting
//! of those rows into a terminal frame is left to the caller.

use crate::article::Article;
use crate::model::{App, LoadingState};
use crate::text::{spec_format_time, format_time, wrap_lines, wrap_text, lines_view};
use vstd::prelude::*;

verus! {

broadcast use vstd::std_specs::hash::group_hash_axioms;

/// Style tag of one composed row.
#[derive(Debug, Clone, Copy, PartialEq, Eq)]
pub enum RowKind {
    /// The placeholder while a fetch is in flight.
    Loading,
    /// Bold header of the full-screen load-error block.
    ErrorTitle,
    /// The load-error message itself.
    ErrorDetail,
    /// The retry/quit hint under a load error.
    ErrorHint,
    /// An empty spacer line.
    Blank,
    /// Article header: bracketed tag and title.
    Title,
    /// Article metadata: source and formatted timestamp.
    Meta,
    /// Placeholder shown when an expanded article has no summary.
    NoSummary,
    /// One wrapped line of an expanded article's summary.
    Summary,
    /// One wrapped line of an expanded article's link.
    LinkUrl,
    /// The "press enter" hint under an expanded article.
    OpenHint,
    /// The trailing row inviting a visit to the website.
    Website,
}

/// One renderable line with its style tag.
#[derive(Debug, Clone, PartialEq)]
pub struct Row {
    pub text: String,
    pub kind: RowKind,
}

/// Mathematical value of a row: its characters and its style tag.
pub struct RowV {
    pub text: Seq<char>,
    pub kind: RowKind,
}

impl View for Row {
    type V = RowV;

    open spec fn view(&self) -> RowV {
        RowV { text: self.text@, kind: self.kind }
    }
}

/// The row values of a sequence of rows.
pub open spec fn rows_view(v: Seq<Row>) -> Seq<RowV> {
    v.map_values(|r: Row| r@)
}

/// An empty spacer row.
pub open spec fn blank_row() -> RowV {
    RowV { text: Seq::empty(), kind: RowKind::Blank }
}

/// Header text of an article: the tag in brackets, a space, the title.
pub open spec fn title_text(a: Article) -> Seq<char> {
    "["@ + a.tag@ + "] "@ + a.title@
}

/// Metadata text of an article: indented source and formatted timestamp.
pub open spec fn meta_text(a: Article) -> Seq<char> {
    "   "@ + a.source@ + " • "@ + spec_format_time(a.published_at@)
}

/// Detail width inside an article block: three columns are reserved for
/// the indent.
pub open spec fn inner_width(w: int) -> int {
    if w >= 3 {
        w - 3
    } else {
        0
    }
}

/// An indented detail line with the given style tag.
pub open spec fn indented(l: Seq<char>, kind: RowKind) -> RowV {
    RowV { text: "   "@ + l, kind }
}

/// The detail block of an expanded article: a spacer, the wrapped summary
/// (or its placeholder), a spacer, the wrapped link, and the open hint.
pub open spec fn detail_rows_spec(a: Article, w: int) -> Seq<RowV> {
    let iw = inner_width(w);
    let summary_rows = if a.summary@.len() == 0 {
        seq![RowV { text: "   No summary available"@, kind: RowKind::NoSummary }]
    } else {
        wrap_lines(a.summary@, iw).map_values(|l: Seq<char>| indented(l, RowKind::Summary))
    };
    let url_rows = wrap_lines("URL: "@ + a.url@, iw).map_values(
        |l: Seq<char>| indented(l, RowKind::LinkUrl),
    );
    seq![blank_row()] + summary_rows + seq![blank_row()] + url_rows + seq![
        RowV { text: "   Press Enter to open in browser"@, kind: RowKind::OpenHint },
    ]
}

/// All rows of one article: header, metadata, and, when expanded, the
/// detail block.
pub open spec fn article_rows_spec(a: Article, expanded: bool, w: int) -> Seq<RowV> {
    let head = seq![
        RowV { text: title_text(a), kind: RowKind::Title },
        RowV { text: meta_text(a), kind: RowKind::Meta },
    ];
    if expanded {
        head + detail_rows_spec(a, w)
    } else {
        head
    }
}

/// Rows of the articles with indices below `k`, in order.
pub open spec fn articles_rows_upto(
    articles: Seq<Article>,
    expanded: Set<usize>,
    w: int,
    k: int,
) -> Seq<RowV>
    decreases k,
{
    if k <= 0 {
        Seq::empty()
    } else {
        articles_rows_upto(articles, expanded, w, k - 1) + article_rows_spec(
            articles[k - 1],
            expanded.contains((k - 1) as usize),
            w,
        )
    }
}

/// The synthetic trailing block: a spacer, the website invitation, a spacer.
pub open spec fn website_rows_spec(base_url: Seq<char>) -> Seq<RowV> {
    seq![
        blank_row(),
        RowV { text: "   Want more? Visit "@ + base_url + " ↗"@, kind: RowKind::Website },
        blank_row(),
    ]
}

/// Everything the terminal shows for the current model state: the loading
/// placeholder, the full error block, or every article's rows followed by
/// the trailing website block.
pub open spec fn compose_spec(app: App, w: int) -> Seq<RowV> {
    match app.loading_state {
        LoadingState::Loading => seq![
            RowV { text: "Loading articles..."@, kind: RowKind::Loading },
        ],
        LoadingState::Error(msg) => seq![
            RowV { text: "Failed to load articles"@, kind: RowKind::ErrorTitle },
            blank_row(),
            RowV { text: msg@, kind: RowKind::ErrorDetail },
            blank_row(),
            RowV { text: "Press 'r' to retry or 'q' to quit"@, kind: RowKind::ErrorHint },
        ],
        LoadingState::Loaded => articles_rows_upto(
            app.articles@,
            app.expanded@,
            w,
            app.articles@.len() as int,
        ) + website_rows_spec(app.base_url@),
    }
}

fn make_blank() -> (r: Row)
    ensures
        r@ == blank_row(),
{
    Row { text: String::new(), kind: RowKind::Blank }
}

/// Push `line` prefixed by the three-column indent, under `kind`.
fn push_indented(rows: &mut Vec<Row>, line: &str, kind: RowKind)
    ensures
        rows_view(final(rows)@) == rows_view(old(rows)@).push(indented(line@, kind)),
{
    let mut text = String::from_str("   ");
    text.append(line);
    let row = Row { text, kind };
    proof {
        assert(rows_view(old(rows)@.push(row)) =~= rows_view(old(rows)@).push(
            indented(line@, kind),
        ));
    }
    rows.push(row);
}

/// All rows of one article at the given content width.
pub fn article_rows(a: &Article, expanded: bool, width: usize) -> (r: Vec<Row>)
    ensures
        rows_view(r@) == article_rows_spec(*a, expanded, width as int),
{
    let mut rows: Vec<Row> = Vec::new();
    let mut title = String::from_str("[");
    title.append(a.tag.as_str());
    title.append("] ");
    title.append(a.title.as_str());
    rows.push(Row { text: title, kind: RowKind::Title });

    let mut meta = String::from_str("   ");
    meta.append(a.source.as_str());
    meta.append(" • ");
    let time = format_time(a.published_at.as_str());
    meta.append(time.as_str());
    rows.push(Row { text: meta, kind: RowKind::Meta });
    proof {
        assert(rows_view(rows@) =~= seq![
            RowV { text: title_text(*a), kind: RowKind::Title },
            RowV { text: meta_text(*a), kind: RowKind::Meta },
        ]);
    }
    if !expanded {
        return rows;
    }

    let iw = if width >= 3 {
        width - 3
    } else {
        0
    };
    rows.push(make_blank());

    if a.summary.as_str().is_empty() {
        let placeholder = Row {
            text: String::from_str("   No summary available"),
            kind: RowKind::NoSummary,
        };
        rows.push(placeholder);
    } else {
        let summary_lines = wrap_text(a.summary.as_str(), iw);
        let ghost wrapped = wrap_lines(a.summary@, iw as int);
        let mut j: usize = 0;
        while j < summary_lines.len()
            invariant
                j <= summary_lines.len(),
                lines_view(summary_lines@) == wrapped,
                rows_view(rows@) == article_rows_spec(*a, false, width as int) + seq![blank_row()]
                    + wrapped.take(j as int).map_values(
                    |l: Seq<char>| indented(l, RowKind::Summary),
                ),
            decreases summary_lines.len() - j,
        {
            push_indented(&mut rows, summary_lines[j].as_str(), RowKind::Summary);
            proof {
                assert(wrapped.take(j + 1).map_values(|l: Seq<char>| indented(l, RowKind::Summary))
                    =~= wrapped.take(j as int).map_values(
                    |l: Seq<char>| indented(l, RowKind::Summary),
                ).push(indented(wrapped[j as int], RowKind::Summary)));
            }
            j = j + 1;
        }
        proof {
            assert(wrapped.take(wrapped.len() as int) =~= wrapped);
        }
    }
    proof {
        assert(rows_view(rows@) =~= article_rows_spec(*a, false, width as int) + seq![blank_row()]
            + (if a.summary@.len() == 0 {
            seq![RowV { text: "   No summary available"@, kind: RowKind::NoSummary }]
        } else {
            wrap_lines(a.summary@, iw as int).map_values(
                |l: Seq<char>| indented(l, RowKind::Summary),
            )
        }));
    }

    let ghost after_summary = rows_view(rows@);
    rows.push(make_blank());
    proof {
        assert(rows_view(rows@) =~= after_summary + seq![blank_row()]);
    }

    let mut url_text = String::from_str("URL: ");
    url_text.append(a.url.as_str());
    let url_lines = wrap_text(url_text.as_str(), iw);
    let ghost wrapped_url = wrap_lines("URL: "@ + a.url@, iw as int);
    let ghost before_urls = rows_view(rows@);
    proof {
        assert(rows_view(rows@) =~= before_urls + wrapped_url.take(0).map_values(
            |l: Seq<char>| indented(l, RowKind::LinkUrl),
        ));
    }
    let mut j: usize = 0;
    while j < url_lines.len()
        invariant
            j <= url_lines.len(),
            lines_view(url_lines@) == wrapped_url,
            rows_view(rows@) == before_urls + wrapped_url.take(j as int).map_values(
                |l: Seq<char>| indented(l, RowKind::LinkUrl),
            ),
        decreases url_lines.len() - j,
    {
        push_indented(&mut rows, url_lines[j].as_str(), RowKind::LinkUrl);
        proof {
            assert(wrapped_url.take(j + 1).map_values(|l: Seq<char>| indented(l, RowKind::LinkUrl))
                =~= wrapped_url.take(j as int).map_values(
                |l: Seq<char>| indented(l, RowKind::LinkUrl),
            ).push(indented(wrapped_url[j as int], RowKind::LinkUrl)));
        }
        j = j + 1;
    }
    proof {
        assert(wrapped_url.take(wrapped_url.len() as int) =~= wrapped_url);
    }

    let hint = Row {
        text: String::from_str("   Press Enter to open in browser"),
        kind: RowKind::OpenHint,
    };
    rows.push(hint);
    proof {
        let w_i = width as int;
        let summary_rows = if a.summary@.len() == 0 {
            seq![RowV { text: "   No summary available"@, kind: RowKind::NoSummary }]
        } else {
            wrap_lines(a.summary@, iw as int).map_values(
                |l: Seq<char>| indented(l, RowKind::Summary),
            )
        };
        let url_rows = wrapped_url.map_values(|l: Seq<char>| indented(l, RowKind::LinkUrl));
        let hintv = RowV { text: "   Press Enter to open in browser"@, kind: RowKind::OpenHint };
        assert(rows_view(rows@) =~= before_urls + url_rows + seq![hintv]);
        assert(before_urls == article_rows_spec(*a, false, w_i) + seq![blank_row()] + summary_rows
            + seq![blank_row()]);
        assert(detail_rows_spec(*a, w_i) =~= seq![blank_row()] + summary_rows + seq![blank_row()]
            + url_rows + seq![hintv]);
        assert(article_rows_spec(*a, true, w_i) == article_rows_spec(*a, false, w_i)
            + detail_rows_spec(*a, w_i));
        assert(rows_view(rows@) =~= article_rows_spec(*a, expanded, width as int));
    }
    rows
}

/// Compose the whole frame's rows for the current model state.
pub fn compose(app: &App, content_width: usize) -> (r: Vec<Row>)
    ensures
        rows_view(r@) == compose_spec(*app, content_width as int),
{
    let mut rows: Vec<Row> = Vec::new();
    match &app.loading_state {
        LoadingState::Loading => {
            rows.push(
                Row { text: String::from_str("Loading articles..."), kind: RowKind::Loading },
            );
            proof {
                assert(rows_view(rows@) =~= compose_spec(*app, content_width as int));
            }
        },
        LoadingState::Error(msg) => {
            rows.push(
                Row {
                    text: String::from_str("Failed to load articles"),
                    kind: RowKind::ErrorTitle,
                },
            );
            rows.push(make_blank());
            rows.push(Row { text: msg.clone(), kind: RowKind::ErrorDetail });
            rows.push(make_blank());
            rows.push(
                Row {
                    text: String::from_str("Press 'r' to retry or 'q' to quit"),
                    kind: RowKind::ErrorHint,
                },
            );
            proof {
                assert(rows_view(rows@) =~= compose_spec(*app, content_width as int));
            }
        },
        LoadingState::Loaded => {
            let mut i: usize = 0;
            while i < app.articles.len()
                invariant
                    i <= app.articles.len(),
                    rows_view(rows@) == articles_rows_upto(
                        app.articles@,
                        app.expanded@,
                        content_width as int,
                        i as int,
                    ),
                decreases app.articles.len() - i,
            {
                let is_expanded = app.expanded.contains(&i);
                let mut block = article_rows(&app.articles[i], is_expanded, content_width);
                proof {
                    assert(rows_view(rows@ + block@) =~= rows_view(rows@) + rows_view(block@));
                }
                rows.append(&mut block);
                i = i + 1;
            }
            let mut invite = String::from_str("   Want more? Visit ");
            invite.append(app.base_url.as_str());
            invite.append(" ↗");
            rows.push(make_blank());
            rows.push(Row { text: invite, kind: RowKind::Website });
            rows.push(make_blank());
            proof {
                assert(rows_view(rows@) =~= compose_spec(*app, content_width as int));
            }
        },
    }
    rows
}

/// Width of the content pane: 85 of every 100 available columns, never
/// fewer than 20.
pub open spec fn spec_content_width(total: int) -> int {
    let c = total * 85 / 100;
    if c < 20 {
        20
    } else {
        c
    }
}

/// Derive the content width from the terminal width.
pub fn content_width_for(total: u16) -> (r: usize)
    ensures
        r == spec_content_width(total as int),
{
    let c = (total as usize) * 85 / 100;
    if c < 20 {
        20
    } else {
        c
    }
}

/// Geometry of the centered transient-error popup: `(x, y, width, height)`.
/// The popup is at most 50 columns wide, leaves a two-column margin on each
/// side of narrower terminals, is 5 rows high, and is centered with the
/// remainder split by integer division.
pub fn popup_geometry(term_width: u16, term_height: u16) -> (r: (u16, u16, u16, u16))
    requires
        term_width >= 4,
        term_height >= 5,
    ensures
        r.2 == (if term_width - 4 < 50 {
            term_width - 4
        } else {
            50
        }),
        r.3 == 5,
        r.0 == (term_width - r.2) / 2,
        r.1 == (term_height - 5) / 2,
{
    let w: u16 = if term_width - 4 < 50 {
        term_width - 4
    } else {
        50
    };
    let h: u16 = 5;
    ((term_width - w) / 2, (term_height - h) / 2, w, h)
}

} // verus!
