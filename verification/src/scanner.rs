//! Scanner core: the dispatch engine that walks the target x probe-type
//! matrix.
//!
//! `Scanner::run` executes the scan plan strictly sequentially: targets in
//! configuration order, and for each target the registered probes in
//! registration order, restricted to probes whose tag is among the enabled
//! scan types. A failing probe invocation contributes zero records and never
//! terminates the run; one progress tick is counted per attempted pair
//! whether it succeeded or failed.

use crate::config::Config;
use crate::plugins::{results_attributed, Plugin, ScanError, ScanResult};
use crate::strutil::str_equal;
use vstd::arithmetic::mul::{lemma_mul_inequality, lemma_mul_is_distributive_add_other_way};
use vstd::prelude::*;
use vstd::string::StringExecFns;

verus! {

#[verifier::external_type_specification]
#[verifier::external_body]
pub struct ExProgressBar(indicatif::ProgressBar);

#[verifier::external_type_specification]
#[verifier::external_body]
pub struct ExProgressStyle(indicatif::ProgressStyle);

#[verifier::external_type_specification]
#[verifier::external_body]
pub struct ExTemplateError(indicatif::style::TemplateError);

/// Relies on `indicatif::ProgressStyle::default_bar`: the default bar style.
#[verifier::external_body]
fn style_default_bar() -> indicatif::ProgressStyle {
    indicatif::ProgressStyle::default_bar()
}

/// Relies on `indicatif::ProgressStyle::template`, applied to the scanner's
/// one fixed template: every key in it is known, its one width (40) fits the
/// width field, and the template grammar accepts it, so the parse succeeds
/// and the call cannot panic or fail.
#[verifier::external_body]
fn style_template(
    style: indicatif::ProgressStyle,
    template: &str,
) -> (r: Result<indicatif::ProgressStyle, indicatif::style::TemplateError>)
    requires
        template@ == "{spinner:.green} [{elapsed_precise}] [{bar:40.cyan/blue}] {pos}/{len} ({eta}) {msg}"@,
    ensures
        r is Ok,
{
    style.template(template)
}

/// Relies on `indicatif::ProgressStyle::progress_chars`: sets the characters
/// the bar is drawn with. The call asserts at least two grapheme clusters;
/// two or more printable ASCII characters are each their own cluster, so the
/// precondition rules the panic out.
#[verifier::external_body]
fn style_progress_chars(style: indicatif::ProgressStyle, s: &str) -> indicatif::ProgressStyle
    requires
        s@.len() >= 2,
        forall|i: int| 0 <= i < s@.len() ==> 0x20 <= (#[trigger] s@[i]) as u32 <= 0x7e,
{
    style.progress_chars(s)
}

/// Relies on `indicatif::ProgressBar::new`: a new progress bar whose length
/// is the given number of expected ticks.
#[verifier::external_body]
fn bar_new(len: u64) -> indicatif::ProgressBar {
    indicatif::ProgressBar::new(len)
}

/// Relies on `indicatif::ProgressBar::set_style`: installs a drawing style.
#[verifier::external_body]
fn bar_set_style(bar: &indicatif::ProgressBar, style: indicatif::ProgressStyle) {
    bar.set_style(style)
}

/// Relies on `indicatif::ProgressBar::set_message`: shows the given message
/// beside the bar.
#[verifier::external_body]
fn bar_set_message(bar: &indicatif::ProgressBar, message: String) {
    bar.set_message(message)
}

/// Relies on `indicatif::ProgressBar::inc`: advances the bar.
#[verifier::external_body]
fn bar_inc(bar: &indicatif::ProgressBar, delta: u64) {
    bar.inc(delta)
}

/// Relies on `indicatif::ProgressBar::finish_with_message`: completes the
/// bar and leaves the given message.
#[verifier::external_body]
fn bar_finish_with_message(bar: &indicatif::ProgressBar, message: String) {
    bar.finish_with_message(message)
}

/// Whether a tag is among the enabled scan types.
pub open spec fn type_enabled(types: Seq<Seq<char>>, tag: Seq<char>) -> bool {
    exists|k: int| 0 <= k < types.len() && types[k] == tag
}

/// How many of the given probes carry a tag among the enabled scan types.
pub open spec fn count_enabled<P: Plugin>(plugins: Seq<P>, types: Seq<Seq<char>>) -> nat
    decreases plugins.len(),
{
    if plugins.len() == 0 {
        0
    } else {
        count_enabled(plugins.drop_last(), types) + (if type_enabled(
            types,
            plugins.last().tag(),
        ) {
            1nat
        } else {
            0nat
        })
    }
}

proof fn lemma_count_enabled_le_len<P: Plugin>(plugins: Seq<P>, types: Seq<Seq<char>>)
    ensures
        count_enabled(plugins, types) <= plugins.len(),
    decreases plugins.len(),
{
    if plugins.len() > 0 {
        lemma_count_enabled_le_len(plugins.drop_last(), types);
    }
}

proof fn lemma_count_enabled_take_step<P: Plugin>(plugins: Seq<P>, types: Seq<Seq<char>>, j: int)
    requires
        0 <= j < plugins.len(),
    ensures
        count_enabled(plugins.take(j + 1), types) == count_enabled(plugins.take(j), types) + (
        if type_enabled(types, plugins[j].tag()) {
            1int
        } else {
            0int
        }),
{
    assert(plugins.take(j + 1).drop_last() =~= plugins.take(j));
    assert(plugins.take(j + 1).last() == plugins[j]);
}

proof fn lemma_count_enabled_take_le<P: Plugin>(plugins: Seq<P>, types: Seq<Seq<char>>, j: int)
    requires
        0 <= j <= plugins.len(),
    ensures
        count_enabled(plugins.take(j), types) <= count_enabled(plugins, types),
    decreases plugins.len() - j,
{
    if j == plugins.len() {
        assert(plugins.take(j) =~= plugins);
    } else {
        lemma_count_enabled_take_step(plugins, types, j);
        lemma_count_enabled_take_le(plugins, types, j + 1);
    }
}

/// A record is attributed to some planned pair: its target is one of the
/// configured targets, and its tag is the tag of some registered probe whose
/// type is enabled.
pub open spec fn attributed<P: Plugin>(cfg: Config, plugins: Seq<P>, r: ScanResult) -> bool {
    exists|t: int, j: int|
        {
            &&& 0 <= t < cfg.targets@.len()
            &&& 0 <= j < plugins.len()
            &&& r.target@ == (#[trigger] cfg.targets@[t])@
            &&& r.scan_type@ == (#[trigger] plugins[j]).tag()
            &&& type_enabled(cfg.scan_types.deep_view(), plugins[j].tag())
        }
}

/// The records of a whole plan, flattened in plan order: targets outermost,
/// and for each target one cell per registered probe.
pub open spec fn flatten_cells(cells: Seq<Seq<Seq<ScanResult>>>) -> Seq<ScanResult>
    decreases cells.len(),
{
    if cells.len() == 0 {
        Seq::empty()
    } else {
        flatten_cells(cells.drop_last()) + cells.last().flatten()
    }
}

/// The cell of one attempted pair holds an outcome the probe's `scan`
/// contract admits for that target: the records of a successful invocation,
/// or nothing for a failed one.
pub open spec fn cell_from_scan<P: Plugin>(p: P, target: Seq<char>, cell: Seq<ScanResult>) -> bool {
    exists|starg: &str, rr: Result<Vec<ScanResult>, ScanError>|
        {
            &&& starg@ == target
            &&& #[trigger] call_ensures(P::scan, (&p, starg), rr)
            &&& cell == (match rr {
                Ok(v) => v@,
                Err(_) => Seq::<ScanResult>::empty(),
            })
        }
}

/// A well-formed plan outcome: one row of cells per configured target, one
/// cell per registered probe, every record in a cell attributed to exactly
/// that (target, probe) pair, a pair whose probe type is not enabled
/// contributing nothing, and every enabled pair's cell being an outcome its
/// probe's contract admits.
pub open spec fn plan_cells<P: Plugin>(
    cfg: Config,
    plugins: Seq<P>,
    cells: Seq<Seq<Seq<ScanResult>>>,
) -> bool {
    &&& cells.len() == cfg.targets@.len()
    &&& forall|t: int| 0 <= t < cells.len() ==> (#[trigger] cells[t]).len() == plugins.len()
    &&& forall|t: int, j: int|
        0 <= t < cells.len() && 0 <= j < plugins.len() ==> results_attributed(
            #[trigger] cells[t][j],
            cfg.targets@[t]@,
            plugins[j].tag(),
        )
    &&& forall|t: int, j: int|
        0 <= t < cells.len() && 0 <= j < plugins.len() && !type_enabled(
            cfg.scan_types.deep_view(),
            plugins[j].tag(),
        ) ==> #[trigger] cells[t][j] == Seq::<ScanResult>::empty()
    &&& forall|t: int, j: int|
        0 <= t < cells.len() && 0 <= j < plugins.len() && type_enabled(
            cfg.scan_types.deep_view(),
            plugins[j].tag(),
        ) ==> cell_from_scan(plugins[j], cfg.targets@[t]@, #[trigger] cells[t][j])
}

fn is_enabled(scan_types: &Vec<String>, tag: &str) -> (r: bool)
    ensures
        r == type_enabled(scan_types.deep_view(), tag@),
{
    let n = scan_types.len();
    let mut k: usize = 0;
    while k < n
        invariant
            0 <= k <= n,
            n == scan_types@.len(),
            forall|m: int| 0 <= m < k ==> scan_types.deep_view()[m] != tag@,
        decreases n - k,
    {
        if str_equal(scan_types[k].as_str(), tag) {
            proof {
                assert(scan_types.deep_view()[k as int] == tag@);
            }
            return true;
        }
        k = k + 1;
    }
    false
}

/// What one run produced: the aggregated records and the number of attempted
/// (target, probe) pairs.
#[derive(Debug)]
pub struct ScanReport {
    /// The aggregated records, in plan order.
    pub results: Vec<ScanResult>,
    /// One tick per attempted pair, counted whether the pair succeeded or
    /// failed.
    pub ticks: u64,
}

/// The orchestrator: an immutable configuration and an instance-local probe
/// registry, populated once at startup.
pub struct Scanner<P: Plugin> {
    config: Config,
    plugins: Vec<P>,
}

impl<P: Plugin> Scanner<P> {
    /// The configuration the scanner was built with.
    pub closed spec fn spec_config(&self) -> Config {
        self.config
    }

    /// The registered probes, in registration order.
    pub closed spec fn spec_plugins(&self) -> Seq<P> {
        self.plugins@
    }

    /// Creates a scanner with an empty probe registry.
    pub fn new(config: Config) -> (s: Scanner<P>)
        ensures
            s.spec_config() == config,
            s.spec_plugins().len() == 0,
    {
        Scanner { config, plugins: Vec::new() }
    }

    /// Adds a probe at the end of the registry. Pure bookkeeping; duplicate
    /// tags are the caller's error and are not signalled here.
    pub fn register_plugin(&mut self, plugin: P)
        ensures
            final(self).spec_config() == old(self).spec_config(),
            final(self).spec_plugins() == old(self).spec_plugins().push(plugin),
    {
        self.plugins.push(plugin);
    }

    /// How many probes are registered.
    pub fn plugin_count(&self) -> (n: usize)
        ensures
            n == self.spec_plugins().len(),
    {
        self.plugins.len()
    }

    /// Executes the scan plan and aggregates all records, tolerating
    /// per-probe failure.
    ///
    /// The plan is the Cartesian product of the configured targets with the
    /// registered probes whose tag is enabled; each pair is attempted exactly
    /// once, and the report counts one tick per attempted pair. A failing
    /// probe invocation contributes zero records and never aborts the run,
    /// and nothing else can fail: the run always returns its report.
    pub fn run(&self) -> (r: Result<ScanReport, ScanError>)
        requires
            self.spec_config().targets@.len() * self.spec_plugins().len() <= u64::MAX,
        ensures
            r is Ok,
            r matches Ok(rep) ==> {
                &&& rep.ticks == self.spec_config().targets@.len() * count_enabled(
                    self.spec_plugins(),
                    self.spec_config().scan_types.deep_view(),
                )
                &&& (self.spec_config().targets@.len() == 0 ==> rep.results@.len() == 0)
                &&& forall|i: int|
                    0 <= i < rep.results@.len() ==> attributed(
                        self.spec_config(),
                        self.spec_plugins(),
                        #[trigger] rep.results@[i],
                    )
                &&& exists|cells: Seq<Seq<Seq<ScanResult>>>|
                    {
                        &&& plan_cells(self.spec_config(), self.spec_plugins(), cells)
                        &&& rep.results@ == #[trigger] flatten_cells(cells)
                    }
            },
    {
        let ghost types = self.config.scan_types.deep_view();
        let ghost e = count_enabled(self.plugins@, types);

        let mut results: Vec<ScanResult> = Vec::new();
        let mut ticks: u64 = 0;
        let ghost mut cells: Seq<Seq<Seq<ScanResult>>> = Seq::empty();

        let target_count = self.config.targets.len();
        if target_count == 0 {
            proof {
                vstd::arithmetic::mul::lemma_mul_basics(e as int);
                assert(plan_cells(self.spec_config(), self.spec_plugins(), cells));
                assert(results@ == flatten_cells(cells));
            }
            return Ok(ScanReport { results, ticks });
        }

        // Count the registered probes whose tag is enabled, to size the
        // progress bar with the plan's length.
        let plugin_count = self.plugins.len();
        let mut count: u64 = 0;
        let mut j: usize = 0;
        proof {
            assert(self.plugins@.take(0) =~= Seq::<P>::empty());
        }
        while j < plugin_count
            invariant
                0 <= j <= plugin_count,
                plugin_count == self.plugins@.len(),
                types == self.config.scan_types.deep_view(),
                count == count_enabled(self.plugins@.take(j as int), types),
                count <= j,
            decreases plugin_count - j,
        {
            let tag = self.plugins[j].scan_type();
            proof {
                lemma_count_enabled_take_step(self.plugins@, types, j as int);
            }
            if is_enabled(&self.config.scan_types, tag.as_str()) {
                count = count + 1;
            }
            j = j + 1;
        }
        proof {
            assert(self.plugins@.take(plugin_count as int) =~= self.plugins@);
            lemma_count_enabled_le_len(self.plugins@, types);
        }

        proof {
            lemma_mul_inequality(
                e as int,
                self.plugins@.len() as int,
                self.config.targets@.len() as int,
            );
            vstd::arithmetic::mul::lemma_mul_is_commutative(
                self.config.targets@.len() as int,
                e as int,
            );
            vstd::arithmetic::mul::lemma_mul_is_commutative(
                self.config.targets@.len() as int,
                self.plugins@.len() as int,
            );
            assert(self.config.targets@.len() * e <= u64::MAX);
        }
        let total: u64 = (target_count as u64) * count;

        let progress: Option<indicatif::ProgressBar> = if total > 0 && self.config.verbose == 0 {
            let style = match style_template(
                style_default_bar(),
                "{spinner:.green} [{elapsed_precise}] [{bar:40.cyan/blue}] {pos}/{len} ({eta}) {msg}",
            ) {
                Ok(s) => s,
                Err(_) => {
                    // the fixed template parses, so this arm cannot be taken
                    proof {
                        assert(false);
                    }
                    return Err(
                        ScanError {
                            message: "invalid progress bar template".to_owned(),
                        },
                    );
                },
            };
            proof {
                reveal_strlit("#>-");
                assert("#>-"@.len() == 3);
                assert forall|i: int| 0 <= i < "#>-"@.len() implies 0x20 <= (
                #[trigger] "#>-"@[i]) as u32 <= 0x7e by {
                    if i == 0 {
                        assert("#>-"@[0] == '#');
                    } else if i == 1 {
                        assert("#>-"@[1] == '>');
                    } else {
                        assert("#>-"@[2] == '-');
                    }
                }
            }
            let style = style_progress_chars(style, "#>-");
            let bar = bar_new(total);
            bar_set_style(&bar, style);
            Some(bar)
        } else {
            None
        };

        let mut t: usize = 0;
        proof {
            vstd::arithmetic::mul::lemma_mul_basics(e as int);
        }
        while t < target_count
            invariant
                0 <= t <= target_count,
                target_count == self.config.targets@.len(),
                types == self.config.scan_types.deep_view(),
                e == count_enabled(self.plugins@, types),
                e <= self.plugins@.len(),
                self.config.targets@.len() * e <= u64::MAX,
                ticks == t * e,
                cells.len() == t,
                results@ == flatten_cells(cells),
                forall|u: int| 0 <= u < t ==> (#[trigger] cells[u]).len() == self.plugins@.len(),
                forall|u: int, jj: int|
                    0 <= u < t && 0 <= jj < self.plugins@.len() ==> results_attributed(
                        #[trigger] cells[u][jj],
                        self.config.targets@[u]@,
                        self.plugins@[jj].tag(),
                    ),
                forall|u: int, jj: int|
                    0 <= u < t && 0 <= jj < self.plugins@.len() && !type_enabled(
                        types,
                        self.plugins@[jj].tag(),
                    ) ==> #[trigger] cells[u][jj] == Seq::<ScanResult>::empty(),
                forall|u: int, jj: int|
                    0 <= u < t && 0 <= jj < self.plugins@.len() && type_enabled(
                        types,
                        self.plugins@[jj].tag(),
                    ) ==> cell_from_scan(
                        self.plugins@[jj],
                        self.config.targets@[u]@,
                        #[trigger] cells[u][jj],
                    ),
                forall|i: int|
                    0 <= i < results@.len() ==> attributed(
                        self.config,
                        self.plugins@,
                        #[trigger] results@[i],
                    ),
            decreases target_count - t,
        {
            let target = &self.config.targets[t];
            let plugin_total = self.plugins.len();
            let ghost mut cell: Seq<Seq<ScanResult>> = Seq::empty();
            let mut j: usize = 0;
            proof {
                assert(self.plugins@.take(0) =~= Seq::<P>::empty());
                assert(results@ =~= flatten_cells(cells) + cell.flatten());
                lemma_mul_inequality(
                    (t + 1) as int,
                    self.config.targets@.len() as int,
                    e as int,
                );
            }
            while j < plugin_total
                invariant
                    0 <= j <= plugin_total,
                    0 <= t < target_count,
                    plugin_total == self.plugins@.len(),
                    target_count == self.config.targets@.len(),
                    target == self.config.targets@[t as int],
                    types == self.config.scan_types.deep_view(),
                    e == count_enabled(self.plugins@, types),
                    e <= self.plugins@.len(),
                    self.config.targets@.len() * e <= u64::MAX,
                    (t + 1) * e <= self.config.targets@.len() * e,
                    ticks == t * e + count_enabled(self.plugins@.take(j as int), types),
                    cells.len() == t,
                    cell.len() == j,
                    results@ == flatten_cells(cells) + cell.flatten(),
                    forall|jj: int|
                        0 <= jj < j ==> results_attributed(
                            #[trigger] cell[jj],
                            self.config.targets@[t as int]@,
                            self.plugins@[jj].tag(),
                        ),
                    forall|jj: int|
                        0 <= jj < j && !type_enabled(types, self.plugins@[jj].tag())
                            ==> #[trigger] cell[jj] == Seq::<ScanResult>::empty(),
                    forall|jj: int|
                        0 <= jj < j && type_enabled(types, self.plugins@[jj].tag())
                            ==> cell_from_scan(
                            self.plugins@[jj],
                            self.config.targets@[t as int]@,
                            #[trigger] cell[jj],
                        ),
                    forall|u: int|
                        0 <= u < t ==> (#[trigger] cells[u]).len() == self.plugins@.len(),
                    forall|u: int, jj: int|
                        0 <= u < t && 0 <= jj < self.plugins@.len() ==> results_attributed(
                            #[trigger] cells[u][jj],
                            self.config.targets@[u]@,
                            self.plugins@[jj].tag(),
                        ),
                    forall|u: int, jj: int|
                        0 <= u < t && 0 <= jj < self.plugins@.len() && !type_enabled(
                            types,
                            self.plugins@[jj].tag(),
                        ) ==> #[trigger] cells[u][jj] == Seq::<ScanResult>::empty(),
                    forall|u: int, jj: int|
                        0 <= u < t && 0 <= jj < self.plugins@.len() && type_enabled(
                            types,
                            self.plugins@[jj].tag(),
                        ) ==> cell_from_scan(
                            self.plugins@[jj],
                            self.config.targets@[u]@,
                            #[trigger] cells[u][jj],
                        ),
                    forall|i: int|
                        0 <= i < results@.len() ==> attributed(
                            self.config,
                            self.plugins@,
                            #[trigger] results@[i],
                        ),
            decreases plugin_total - j,
            {
                let plugin = &self.plugins[j];
                let tag = plugin.scan_type();
                proof {
                    lemma_count_enabled_take_step(self.plugins@, types, j as int);
                    lemma_count_enabled_take_le(self.plugins@, types, j + 1);
                    lemma_mul_is_distributive_add_other_way(e as int, t as int, 1int);
                    assert((t + 1) * e == t * e + e);
                }
                if is_enabled(&self.config.scan_types, tag.as_str()) {
                    match &progress {
                        Some(bar) => {
                            let mut message = tag.clone();
                            message.append(" on ");
                            message.append(target.as_str());
                            bar_set_message(bar, message);
                        },
                        None => {},
                    }
                    let ghost old_results = results@;
                    let tstr = target.as_str();
                    let scan_outcome = plugin.scan(tstr);
                    let ghost outcome = scan_outcome;
                    proof {
                        assert(call_ensures(P::scan, (plugin, tstr), outcome));
                    }
                    match scan_outcome {
                        Ok(mut rs) => {
                            let ghost new_results = rs@;
                            results.append(&mut rs);
                            proof {
                                cell.lemma_flatten_push(new_results);
                                cell = cell.push(new_results);
                                assert(cell_from_scan(
                                    self.plugins@[j as int],
                                    target@,
                                    new_results,
                                ));
                                assert(results@ =~= flatten_cells(cells) + cell.flatten());
                                assert forall|i: int| 0 <= i < results@.len() implies attributed(
                                    self.config,
                                    self.plugins@,
                                    #[trigger] results@[i],
                                ) by {
                                    if i >= old_results.len() {
                                        let k = i - old_results.len();
                                        assert(results@[i] == new_results[k]);
                                        assert(new_results[k].target@ == target@);
                                        assert(new_results[k].scan_type@ == plugin.tag());
                                    }
                                }
                            }
                        },
                        Err(_) => {
                            proof {
                                let prev_cell = cell;
                                prev_cell.lemma_flatten_push(Seq::empty());
                                cell = cell.push(Seq::empty());
                                assert(cell.flatten() =~= prev_cell.flatten());
                                assert(cell_from_scan(
                                    self.plugins@[j as int],
                                    target@,
                                    Seq::<ScanResult>::empty(),
                                ));
                                assert(results@ =~= flatten_cells(cells) + cell.flatten());
                            }
                        },
                    }
                    ticks = ticks + 1;
                    match &progress {
                        Some(bar) => {
                            bar_inc(bar, 1);
                        },
                        None => {},
                    }
                } else {
                    proof {
                        let prev_cell = cell;
                        prev_cell.lemma_flatten_push(Seq::empty());
                        cell = cell.push(Seq::empty());
                        assert(cell.flatten() =~= prev_cell.flatten());
                        assert(results@ =~= flatten_cells(cells) + cell.flatten());
                    }
                }
                j = j + 1;
            }
            proof {
                assert(self.plugins@.take(plugin_total as int) =~= self.plugins@);
                lemma_mul_is_distributive_add_other_way(e as int, t as int, 1int);
                assert(cells.push(cell).drop_last() =~= cells);
                assert(flatten_cells(cells.push(cell)) == flatten_cells(cells) + cell.flatten());
                cells = cells.push(cell);
                assert(results@ == flatten_cells(cells));
            }
            t = t + 1;
        }

        match progress {
            Some(bar) => {
                bar_finish_with_message(&bar, "Scan completed".to_owned());
            },
            None => {},
        }

        proof {
            assert(plan_cells(self.spec_config(), self.spec_plugins(), cells));
            assert(results@ == flatten_cells(cells));
        }
        Ok(ScanReport { results, ticks })
    }
}

} // verus!
