//! The store: two append-only tables and the rules for writing to them.
//!
//! [`Database`] holds the rows of the currency table and of the quote table as
//! plain values. The three operations below decide what a write does: a
//! currency is registered at most once per name and symbol, a quote is only
//! appended for a registered currency, and nothing is ever changed or removed.
//! Putting the rows on disk is the caller's business.

use vstd::prelude::*;

verus! {

/// One price sample as the quote source delivers it.
#[derive(Debug, PartialEq, Eq)]
pub struct Quote {
    /// The price in hundredths of a US dollar. A stored price has exactly two
    /// decimals, so it is kept as a whole number of cents.
    pub price: i64,
    /// The 24-hour percent change as the bits of an IEEE 754 double. The
    /// tracker never computes with it and stores it as it came.
    pub percent_change_24h: u64,
    /// When the source computed the value, in the source's own notation.
    pub last_updated: String,
}

/// The quotes of a currency by denomination.
#[derive(Debug, PartialEq, Eq)]
pub struct Quotes {
    pub usd: Quote,
}

/// A tracked currency together with its latest quote.
#[derive(Debug, PartialEq, Eq)]
pub struct Cryptocurrency {
    /// The number the upstream API gives the currency.
    pub id: u64,
    pub name: String,
    pub symbol: String,
    pub quote: Quotes,
}

/// Mathematical value of a [`Quote`].
pub struct QuoteView {
    pub price: i64,
    pub percent_change_24h: u64,
    pub last_updated: Seq<char>,
}

/// Mathematical value of a [`Quotes`].
pub struct QuotesView {
    pub usd: QuoteView,
}

/// Mathematical value of a [`Cryptocurrency`].
pub struct CryptocurrencyView {
    pub id: u64,
    pub name: Seq<char>,
    pub symbol: Seq<char>,
    pub quote: QuotesView,
}

impl View for Quote {
    type V = QuoteView;

    open spec fn view(&self) -> QuoteView {
        QuoteView {
            price: self.price,
            percent_change_24h: self.percent_change_24h,
            last_updated: self.last_updated@,
        }
    }
}

impl View for Quotes {
    type V = QuotesView;

    open spec fn view(&self) -> QuotesView {
        QuotesView { usd: self.usd@ }
    }
}

impl View for Cryptocurrency {
    type V = CryptocurrencyView;

    open spec fn view(&self) -> CryptocurrencyView {
        CryptocurrencyView {
            id: self.id,
            name: self.name@,
            symbol: self.symbol@,
            quote: self.quote@,
        }
    }
}

impl Clone for Quote {
    fn clone(&self) -> (copy: Self)
        ensures
            copy@ == self@,
    {
        Quote {
            price: self.price,
            percent_change_24h: self.percent_change_24h,
            last_updated: self.last_updated.clone(),
        }
    }
}

impl Clone for Quotes {
    fn clone(&self) -> (copy: Self)
        ensures
            copy@ == self@,
    {
        Quotes { usd: self.usd.clone() }
    }
}

impl Clone for Cryptocurrency {
    fn clone(&self) -> (copy: Self)
        ensures
            copy@ == self@,
    {
        Cryptocurrency {
            id: self.id,
            name: self.name.clone(),
            symbol: self.symbol.clone(),
            quote: self.quote.clone(),
        }
    }
}

/// Why the store refused a write.
#[derive(Clone, Copy, Debug, PartialEq, Eq, Structural)]
pub enum StoreError {
    /// The tables have not been created.
    NoSchema,
    /// The currency id does not fit the store's signed 64-bit key.
    IdOutOfRange,
    /// Another currency already has this id.
    DuplicateId,
    /// Another currency already has this name.
    DuplicateName,
    /// Another currency already has this symbol.
    DuplicateSymbol,
    /// No currency with the given id is registered.
    UnknownCurrency,
}

/// A row of the currency table.
#[derive(Debug, PartialEq, Eq)]
pub struct CurrencyRow {
    pub id: u64,
    pub name: String,
    pub symbol: String,
}

/// A row of the quote table.
#[derive(Debug, PartialEq, Eq)]
pub struct QuoteRow {
    /// The id of the currency the sample belongs to.
    pub currency_id: u64,
    pub price: i64,
    pub percent_change_24h: u64,
    pub last_updated: String,
}

/// Mathematical value of a [`CurrencyRow`].
pub struct CurrencyRowView {
    pub id: u64,
    pub name: Seq<char>,
    pub symbol: Seq<char>,
}

/// Mathematical value of a [`QuoteRow`].
pub struct QuoteRowView {
    pub currency_id: u64,
    pub price: i64,
    pub percent_change_24h: u64,
    pub last_updated: Seq<char>,
}

impl View for CurrencyRow {
    type V = CurrencyRowView;

    open spec fn view(&self) -> CurrencyRowView {
        CurrencyRowView { id: self.id, name: self.name@, symbol: self.symbol@ }
    }
}

impl View for QuoteRow {
    type V = QuoteRowView;

    open spec fn view(&self) -> QuoteRowView {
        QuoteRowView {
            currency_id: self.currency_id,
            price: self.price,
            percent_change_24h: self.percent_change_24h,
            last_updated: self.last_updated@,
        }
    }
}

/// The row that records `quote` for the currency `currency_id`.
pub open spec fn quote_row(currency_id: u64, quote: QuoteView) -> QuoteRowView {
    QuoteRowView {
        currency_id,
        price: quote.price,
        percent_change_24h: quote.percent_change_24h,
        last_updated: quote.last_updated,
    }
}

/// The test whether a currency row carries both `name` and `symbol`.
pub open spec fn carries(name: Seq<char>, symbol: Seq<char>) -> spec_fn(CurrencyRowView) -> bool {
    |row: CurrencyRowView| row.name == name && row.symbol == symbol
}

/// Mathematical value of a [`Database`]: whether the tables exist, and their
/// rows in insertion order.
pub struct DatabaseView {
    pub schema: bool,
    pub currencies: Seq<CurrencyRowView>,
    pub quotes: Seq<QuoteRowView>,
}

impl DatabaseView {
    /// The store before anything was written to it.
    pub open spec fn empty() -> DatabaseView {
        DatabaseView { schema: false, currencies: Seq::empty(), quotes: Seq::empty() }
    }

    /// Whether some currency has the id `id`.
    pub open spec fn has_id(self, id: u64) -> bool {
        exists|i: int| 0 <= i < self.currencies.len() && (#[trigger] self.currencies[i]).id == id
    }

    /// Whether some currency has the name `name`.
    pub open spec fn has_name(self, name: Seq<char>) -> bool {
        exists|i: int|
            0 <= i < self.currencies.len() && (#[trigger] self.currencies[i]).name == name
    }

    /// Whether some currency has the symbol `symbol`.
    pub open spec fn has_symbol(self, symbol: Seq<char>) -> bool {
        exists|i: int|
            0 <= i < self.currencies.len() && (#[trigger] self.currencies[i]).symbol == symbol
    }

    /// Whether row `i` of the currency table carries both `name` and `symbol`.
    pub open spec fn names_row(self, i: int, name: Seq<char>, symbol: Seq<char>) -> bool {
        &&& 0 <= i < self.currencies.len()
        &&& self.currencies[i].name == name
        &&& self.currencies[i].symbol == symbol
    }

    /// How many rows of the currency table carry both `name` and `symbol`.
    pub open spec fn count(self, name: Seq<char>, symbol: Seq<char>) -> nat {
        self.currencies.filter(carries(name, symbol)).len()
    }

    /// The id under which `name` and `symbol` are registered, if they are.
    pub open spec fn lookup(self, name: Seq<char>, symbol: Seq<char>) -> Option<u64> {
        if exists|i: int| self.names_row(i, name, symbol) {
            Some(self.currencies[choose|i: int| self.names_row(i, name, symbol)].id)
        } else {
            None
        }
    }

    /// The invariant of the store.
    ///
    /// Without tables there are no rows; ids, names and symbols are each
    /// unique among the currencies; every id fits a signed 64-bit key; and
    /// every quote belongs to a registered currency.
    pub open spec fn well_formed(self) -> bool {
        &&& !self.schema ==> self.currencies.len() == 0 && self.quotes.len() == 0
        &&& forall|i: int, j: int|
            0 <= i < j < self.currencies.len() ==> {
                &&& (#[trigger] self.currencies[i]).id != (#[trigger] self.currencies[j]).id
                &&& self.currencies[i].name != self.currencies[j].name
                &&& self.currencies[i].symbol != self.currencies[j].symbol
            }
        &&& forall|i: int|
            0 <= i < self.currencies.len() ==> (#[trigger] self.currencies[i]).id <= i64::MAX
        &&& forall|k: int|
            0 <= k < self.quotes.len() ==> self.has_id((#[trigger] self.quotes[k]).currency_id)
    }

    /// The store after the tables were created: rows stay as they are.
    pub open spec fn with_schema(self) -> DatabaseView {
        DatabaseView { schema: true, ..self }
    }

    /// Why a new currency row with these values cannot be added, if it cannot.
    pub open spec fn add_refusal(self, id: u64, name: Seq<char>, symbol: Seq<char>) -> Option<
        StoreError,
    > {
        if !self.schema {
            Some(StoreError::NoSchema)
        } else if id > i64::MAX {
            Some(StoreError::IdOutOfRange)
        } else if self.has_id(id) {
            Some(StoreError::DuplicateId)
        } else if self.has_name(name) {
            Some(StoreError::DuplicateName)
        } else if self.has_symbol(symbol) {
            Some(StoreError::DuplicateSymbol)
        } else {
            None
        }
    }

    /// The store with one more currency row at the end.
    pub open spec fn with_currency(self, id: u64, name: Seq<char>, symbol: Seq<char>) -> DatabaseView {
        DatabaseView {
            currencies: self.currencies.push(CurrencyRowView { id, name, symbol }),
            ..self
        }
    }

    /// The store with one more quote row at the end.
    pub open spec fn with_quote(self, currency_id: u64, quote: QuoteView) -> DatabaseView {
        DatabaseView { quotes: self.quotes.push(quote_row(currency_id, quote)), ..self }
    }

    /// What looking a currency up by name and symbol answers.
    pub open spec fn find(self, name: Seq<char>, symbol: Seq<char>) -> Result<
        Option<u64>,
        StoreError,
    > {
        if self.schema {
            Ok(self.lookup(name, symbol))
        } else {
            Err(StoreError::NoSchema)
        }
    }

    /// What adding a currency row does: the store afterwards and the answer.
    pub open spec fn add(self, id: u64, name: Seq<char>, symbol: Seq<char>) -> (
        DatabaseView,
        Result<u64, StoreError>,
    ) {
        match self.add_refusal(id, name, symbol) {
            Some(error) => (self, Err(error)),
            None => (self.with_currency(id, name, symbol), Ok(id)),
        }
    }

    /// What registering `currency` does: an existing registration under the
    /// same name and symbol wins, otherwise a row is added under the upstream
    /// id.
    pub open spec fn upsert(self, currency: CryptocurrencyView) -> (
        DatabaseView,
        Result<u64, StoreError>,
    ) {
        match self.find(currency.name, currency.symbol) {
            Err(error) => (self, Err(error)),
            Ok(Some(id)) => (self, Ok(id)),
            Ok(None) => self.add(currency.id, currency.name, currency.symbol),
        }
    }

    /// What appending `quote` for `currency_id` does.
    pub open spec fn append(self, currency_id: u64, quote: QuoteView) -> (
        DatabaseView,
        Result<(), StoreError>,
    ) {
        if !self.schema {
            (self, Err(StoreError::NoSchema))
        } else if !self.has_id(currency_id) {
            (self, Err(StoreError::UnknownCurrency))
        } else {
            (self.with_quote(currency_id, quote), Ok(()))
        }
    }
}

/// The rows of a currency table as mathematical values.
pub open spec fn currency_rows(rows: Seq<CurrencyRow>) -> Seq<CurrencyRowView> {
    rows.map_values(|row: CurrencyRow| row@)
}

/// The rows of a quote table as mathematical values.
pub open spec fn quote_rows(rows: Seq<QuoteRow>) -> Seq<QuoteRowView> {
    rows.map_values(|row: QuoteRow| row@)
}

/// The store: the two tables, kept well formed by every operation.
pub struct Database {
    schema: bool,
    currencies: Vec<CurrencyRow>,
    quotes: Vec<QuoteRow>,
}

impl View for Database {
    type V = DatabaseView;

    closed spec fn view(&self) -> DatabaseView {
        DatabaseView {
            schema: self.schema,
            currencies: currency_rows(self.currencies@),
            quotes: quote_rows(self.quotes@),
        }
    }
}

impl Database {
    #[verifier::type_invariant]
    spec fn inv(self) -> bool {
        self@.well_formed()
    }

    /// A store without tables.
    pub fn new() -> (db: Database)
        ensures
            db@ == DatabaseView::empty(),
    {
        let db = Database { schema: false, currencies: Vec::new(), quotes: Vec::new() };
        assert(db@.currencies =~= Seq::empty());
        assert(db@.quotes =~= Seq::empty());
        db
    }

    /// Whether the tables exist. Every store is well formed, and this is the
    /// place where a caller learns it.
    pub fn has_schema(&self) -> (schema: bool)
        ensures
            schema == self@.schema,
            self@.well_formed(),
    {
        proof {
            use_type_invariant(self);
        }
        self.schema
    }

    /// The number of registered currencies.
    pub fn currency_count(&self) -> (count: usize)
        ensures
            count == self@.currencies.len(),
    {
        self.currencies.len()
    }

    /// The number of stored quotes.
    pub fn quote_count(&self) -> (count: usize)
        ensures
            count == self@.quotes.len(),
    {
        self.quotes.len()
    }

    /// The currency row at `index`, counted from the oldest.
    pub fn currency(&self, index: usize) -> (row: Option<&CurrencyRow>)
        ensures
            index < self@.currencies.len() ==> row is Some
                && row->0@ == self@.currencies[index as int],
            index >= self@.currencies.len() ==> row is None,
    {
        if index < self.currencies.len() {
            Some(&self.currencies[index])
        } else {
            None
        }
    }

    /// The quote row at `index`, counted from the oldest.
    pub fn quote(&self, index: usize) -> (row: Option<&QuoteRow>)
        ensures
            index < self@.quotes.len() ==> row is Some && row->0@ == self@.quotes[index as int],
            index >= self@.quotes.len() ==> row is None,
    {
        if index < self.quotes.len() {
            Some(&self.quotes[index])
        } else {
            None
        }
    }

    /// The position of the row that carries both `name` and `symbol`.
    fn position_of(&self, name: &String, symbol: &String) -> (found: Option<usize>)
        ensures
            match found {
                Some(i) => self@.names_row(i as int, name@, symbol@),
                None => forall|i: int| !self@.names_row(i, name@, symbol@),
            },
    {
        let mut i: usize = 0;
        while i < self.currencies.len()
            invariant
                i <= self.currencies.len(),
                forall|k: int| 0 <= k < i ==> !self@.names_row(k, name@, symbol@),
            decreases self.currencies.len() - i,
        {
            if self.currencies[i].name == *name && self.currencies[i].symbol == *symbol {
                return Some(i);
            }
            i += 1;
        }
        None
    }

    /// Whether some currency has the id `id`.
    fn holds_id(&self, id: u64) -> (held: bool)
        ensures
            held == self@.has_id(id),
    {
        let mut i: usize = 0;
        while i < self.currencies.len()
            invariant
                i <= self.currencies.len(),
                forall|k: int| 0 <= k < i ==> (#[trigger] self@.currencies[k]).id != id,
            decreases self.currencies.len() - i,
        {
            if self.currencies[i].id == id {
                assert(self@.currencies[i as int].id == id);
                return true;
            }
            i += 1;
        }
        false
    }

    /// Whether some currency has the name `name`.
    fn holds_name(&self, name: &String) -> (held: bool)
        ensures
            held == self@.has_name(name@),
    {
        let mut i: usize = 0;
        while i < self.currencies.len()
            invariant
                i <= self.currencies.len(),
                forall|k: int| 0 <= k < i ==> (#[trigger] self@.currencies[k]).name != name@,
            decreases self.currencies.len() - i,
        {
            if self.currencies[i].name == *name {
                assert(self@.currencies[i as int].name == name@);
                return true;
            }
            i += 1;
        }
        false
    }

    /// Whether some currency has the symbol `symbol`.
    fn holds_symbol(&self, symbol: &String) -> (held: bool)
        ensures
            held == self@.has_symbol(symbol@),
    {
        let mut i: usize = 0;
        while i < self.currencies.len()
            invariant
                i <= self.currencies.len(),
                forall|k: int| 0 <= k < i ==> (#[trigger] self@.currencies[k]).symbol != symbol@,
            decreases self.currencies.len() - i,
        {
            if self.currencies[i].symbol == *symbol {
                assert(self@.currencies[i as int].symbol == symbol@);
                return true;
            }
            i += 1;
        }
        false
    }

    /// Looks a currency up by name and symbol and answers with its id.
    pub fn find_currency(&self, name: &String, symbol: &String) -> (answer: Result<
        Option<u64>,
        StoreError,
    >)
        ensures
            answer == self@.find(name@, symbol@),
            self@.well_formed(),
    {
        proof {
            use_type_invariant(self);
        }
        if !self.schema {
            return Err(StoreError::NoSchema);
        }
        match self.position_of(name, symbol) {
            Some(i) => {
                proof {
                    let chosen = choose|k: int| self@.names_row(k, name@, symbol@);
                    assert(self@.names_row(chosen, name@, symbol@));
                    assert(chosen == i as int);
                }
                Ok(Some(self.currencies[i].id))
            },
            None => Ok(None),
        }
    }

    /// Adds a currency row under `id`, unless the store has to refuse it.
    pub fn add_currency(&mut self, id: u64, name: &String, symbol: &String) -> (answer: Result<
        u64,
        StoreError,
    >)
        ensures
            (final(self)@, answer) == old(self)@.add(id, name@, symbol@),
            final(self)@.well_formed(),
    {
        proof {
            use_type_invariant(&*self);
        }
        if !self.schema {
            return Err(StoreError::NoSchema);
        }
        if id > 0x7fff_ffff_ffff_ffff {
            return Err(StoreError::IdOutOfRange);
        }
        if self.holds_id(id) {
            return Err(StoreError::DuplicateId);
        }
        if self.holds_name(name) {
            return Err(StoreError::DuplicateName);
        }
        if self.holds_symbol(symbol) {
            return Err(StoreError::DuplicateSymbol);
        }
        let row = CurrencyRow { id, name: name.clone(), symbol: symbol.clone() };
        let mut taken = Database::new();
        std::mem::swap(self, &mut taken);
        let Database { schema, mut currencies, quotes } = taken;
        currencies.push(row);
        proof {
            let before = old(self)@;
            assert(currency_rows(currencies@) =~= before.currencies.push(row@));
            lemma_add_well_formed(before, id, name@, symbol@);
        }
        *self = Database { schema, currencies, quotes };
        Ok(id)
    }

    /// Creates the tables if they are missing.
    fn ensure_schema(&mut self)
        ensures
            final(self)@ == old(self)@.with_schema(),
            final(self)@.well_formed(),
    {
        proof {
            use_type_invariant(&*self);
        }
        self.schema = true;
    }

    /// Appends a quote row for `currency_id`, unless the store has to refuse it.
    fn append_quote(&mut self, currency_id: u64, quote: &Quote) -> (answer: Result<(), StoreError>)
        ensures
            (final(self)@, answer) == old(self)@.append(currency_id, quote@),
            final(self)@.well_formed(),
    {
        proof {
            use_type_invariant(&*self);
        }
        if !self.schema {
            return Err(StoreError::NoSchema);
        }
        if !self.holds_id(currency_id) {
            return Err(StoreError::UnknownCurrency);
        }
        let row = QuoteRow {
            currency_id,
            price: quote.price,
            percent_change_24h: quote.percent_change_24h,
            last_updated: quote.last_updated.clone(),
        };
        let mut taken = Database::new();
        std::mem::swap(self, &mut taken);
        let Database { schema, currencies, mut quotes } = taken;
        quotes.push(row);
        proof {
            let before = old(self)@;
            assert(quote_rows(quotes@) =~= before.quotes.push(quote_row(currency_id, quote@)));
            lemma_append_well_formed(before, currency_id, quote@);
        }
        *self = Database { schema, currencies, quotes };
        Ok(())
    }
}

/// Adding a currency row that the store does not refuse keeps the store well
/// formed.
pub proof fn lemma_add_well_formed(db: DatabaseView, id: u64, name: Seq<char>, symbol: Seq<char>)
    requires
        db.well_formed(),
    ensures
        db.add(id, name, symbol).0.well_formed(),
{
    if db.add_refusal(id, name, symbol) is None {
        let after = db.with_currency(id, name, symbol);
        assert forall|k: int| 0 <= k < after.quotes.len() implies after.has_id(
            (#[trigger] after.quotes[k]).currency_id,
        ) by {
            let wanted = db.quotes[k].currency_id;
            assert(db.has_id(wanted));
            let at = choose|i: int|
                0 <= i < db.currencies.len() && (#[trigger] db.currencies[i]).id == wanted;
            assert(after.currencies[at].id == wanted);
        }
    }
}

/// Appending a quote keeps the store well formed.
pub proof fn lemma_append_well_formed(db: DatabaseView, currency_id: u64, quote: QuoteView)
    requires
        db.well_formed(),
    ensures
        db.append(currency_id, quote).0.well_formed(),
{
    if db.schema && db.has_id(currency_id) {
        let after = db.with_quote(currency_id, quote);
        assert forall|k: int| 0 <= k < after.quotes.len() implies after.has_id(
            (#[trigger] after.quotes[k]).currency_id,
        ) by {
            let wanted = after.quotes[k].currency_id;
            if k < db.quotes.len() {
                assert(db.has_id(db.quotes[k].currency_id));
            }
            assert(db.has_id(wanted));
            let at = choose|i: int|
                0 <= i < db.currencies.len() && (#[trigger] db.currencies[i]).id == wanted;
            assert(after.currencies[at].id == wanted);
        }
    }
}

/// Creates the currency table and the quote table if they are missing. Rows
/// that are already there stay as they are, so this is safe at every start.
pub fn create_database(db: &mut Database) -> (done: Result<(), StoreError>)
    ensures
        done is Ok,
        final(db)@ == old(db)@.with_schema(),
        final(db)@.well_formed(),
{
    db.ensure_schema();
    Ok(())
}

/// Registers `currency` and answers with the id the store knows it by.
///
/// A currency that is already registered under the same name and symbol keeps
/// its id, whatever id comes with `currency`; nothing is written then.
/// Otherwise a row is added under the id that comes with `currency`.
pub fn insert_currency(db: &mut Database, currency: &Cryptocurrency) -> (answer: Result<
    u64,
    StoreError,
>)
    ensures
        (final(db)@, answer) == old(db)@.upsert(currency@),
        final(db)@.well_formed(),
{
    match db.find_currency(&currency.name, &currency.symbol) {
        Err(error) => Err(error),
        Ok(Some(id)) => Ok(id),
        Ok(None) => db.add_currency(currency.id, &currency.name, &currency.symbol),
    }
}

/// Appends `quote` as a new row that belongs to the currency `currency_id`.
///
/// The store refuses the row when no currency has that id; rows that are
/// already there are never touched.
pub fn insert_quote(db: &mut Database, currency_id: u64, quote: &Quote) -> (answer: Result<
    (),
    StoreError,
>)
    ensures
        (final(db)@, answer) == old(db)@.append(currency_id, quote@),
        final(db)@.well_formed(),
{
    db.append_quote(currency_id, quote)
}

/// What registering each of `calls` in turn leaves in the store.
pub open spec fn upsert_all(db: DatabaseView, calls: Seq<CryptocurrencyView>) -> DatabaseView
    decreases calls.len(),
{
    if calls.len() == 0 {
        db
    } else {
        upsert_all(db, calls.drop_last()).upsert(calls.last()).0
    }
}

/// Among rows with pairwise different names, a name and symbol are carried by
/// one row or by none.
proof fn lemma_count_rows(rows: Seq<CurrencyRowView>, name: Seq<char>, symbol: Seq<char>)
    requires
        forall|i: int, j: int|
            0 <= i < j < rows.len() ==> (#[trigger] rows[i]).name != (#[trigger] rows[j]).name,
    ensures
        rows.filter(carries(name, symbol)).len() == (if exists|i: int|
            0 <= i < rows.len() && carries(name, symbol)(#[trigger] rows[i]) {
            1nat
        } else {
            0nat
        }),
    decreases rows.len(),
{
    reveal(Seq::filter);
    if rows.len() > 0 {
        let front = rows.drop_last();
        let last = rows.last();
        assert forall|i: int, j: int| 0 <= i < j < front.len() implies (#[trigger] front[i]).name
            != (#[trigger] front[j]).name by {
            assert(front[i] == rows[i] && front[j] == rows[j]);
        }
        lemma_count_rows(front, name, symbol);
        if carries(name, symbol)(last) {
            assert(carries(name, symbol)(rows[rows.len() - 1]));
            if exists|i: int| 0 <= i < front.len() && carries(name, symbol)(#[trigger] front[i]) {
                let i = choose|i: int|
                    0 <= i < front.len() && carries(name, symbol)(#[trigger] front[i]);
                assert(front[i] == rows[i]);
                assert(rows[i].name != rows[rows.len() - 1].name);
            }
        } else {
            if exists|i: int| 0 <= i < rows.len() && carries(name, symbol)(#[trigger] rows[i]) {
                let i = choose|i: int|
                    0 <= i < rows.len() && carries(name, symbol)(#[trigger] rows[i]);
                assert(front[i] == rows[i]);
            }
            if exists|i: int| 0 <= i < front.len() && carries(name, symbol)(#[trigger] front[i]) {
                let i = choose|i: int|
                    0 <= i < front.len() && carries(name, symbol)(#[trigger] front[i]);
                assert(front[i] == rows[i]);
            }
        }
    }
}

/// A well-formed store holds one row for a name and symbol that are
/// registered, and none for a pair that is not.
pub proof fn lemma_count(db: DatabaseView, name: Seq<char>, symbol: Seq<char>)
    requires
        db.well_formed(),
    ensures
        db.count(name, symbol) == (if db.lookup(name, symbol) is Some {
            1nat
        } else {
            0nat
        }),
{
    lemma_count_rows(db.currencies, name, symbol);
    if exists|i: int| db.names_row(i, name, symbol) {
        let i = choose|i: int| db.names_row(i, name, symbol);
        assert(carries(name, symbol)(db.currencies[i]));
    }
    if exists|i: int|
        0 <= i < db.currencies.len() && carries(name, symbol)(#[trigger] db.currencies[i]) {
        let i = choose|i: int|
            0 <= i < db.currencies.len() && carries(name, symbol)(#[trigger] db.currencies[i]);
        assert(db.names_row(i, name, symbol));
    }
}

/// A currency that was just added is found under the id it was added with.
pub proof fn lemma_added_is_found(db: DatabaseView, id: u64, name: Seq<char>, symbol: Seq<char>)
    requires
        db.well_formed(),
        db.add_refusal(id, name, symbol) is None,
    ensures
        db.with_currency(id, name, symbol).lookup(name, symbol) == Some(id),
{
    let after = db.with_currency(id, name, symbol);
    let at = db.currencies.len() as int;
    assert(after.names_row(at, name, symbol));
    let chosen = choose|i: int| after.names_row(i, name, symbol);
    if chosen != at {
        assert(db.currencies[chosen].name == name);
        assert(db.has_name(name));
    }
}

/// Registering a currency keeps the store well formed.
pub proof fn lemma_upsert_well_formed(db: DatabaseView, currency: CryptocurrencyView)
    requires
        db.well_formed(),
    ensures
        db.upsert(currency).0.well_formed(),
{
    lemma_add_well_formed(db, currency.id, currency.name, currency.symbol);
}

/// Registering is idempotent: once a name and symbol have been registered,
/// registering them again answers with the same id, writes nothing, and the
/// store holds exactly one row for them. The id that comes with the second
/// call plays no part.
pub proof fn lemma_upsert_idempotent(
    db: DatabaseView,
    first: CryptocurrencyView,
    second: CryptocurrencyView,
)
    requires
        db.well_formed(),
        first.name == second.name,
        first.symbol == second.symbol,
        db.upsert(first).1 is Ok,
    ensures
        db.upsert(first).0.upsert(second).1 == db.upsert(first).1,
        db.upsert(first).0.upsert(second).0 == db.upsert(first).0,
        db.upsert(first).0.count(first.name, first.symbol) == 1,
{
    let once = db.upsert(first).0;
    lemma_upsert_well_formed(db, first);
    if db.lookup(first.name, first.symbol) is None {
        lemma_added_is_found(db, first.id, first.name, first.symbol);
    }
    lemma_count(once, first.name, first.symbol);
}

/// However often one name and symbol are registered, and under whatever ids,
/// the store never holds a second row for them: at most one row is ever
/// added, and none when the pair was registered before.
pub proof fn lemma_never_a_second_row(
    db: DatabaseView,
    name: Seq<char>,
    symbol: Seq<char>,
    calls: Seq<CryptocurrencyView>,
)
    requires
        db.well_formed(),
        forall|k: int|
            0 <= k < calls.len() ==> (#[trigger] calls[k]).name == name && calls[k].symbol
                == symbol,
    ensures
        upsert_all(db, calls).well_formed(),
        upsert_all(db, calls).count(name, symbol) <= 1,
        upsert_all(db, calls).currencies.len() <= db.currencies.len() + 1,
        upsert_all(db, calls).currencies.len() == db.currencies.len() + 1 ==> db.count(
            name,
            symbol,
        ) == 0,
        db.count(name, symbol) == 1 ==> upsert_all(db, calls) == db,
        upsert_all(db, calls).quotes == db.quotes,
    decreases calls.len(),
{
    lemma_count(db, name, symbol);
    if calls.len() > 0 {
        let front = calls.drop_last();
        let last = calls.last();
        assert forall|k: int| 0 <= k < front.len() implies (#[trigger] front[k]).name == name
            && front[k].symbol == symbol by {
            assert(front[k] == calls[k]);
        }
        lemma_never_a_second_row(db, name, symbol, front);
        let before = upsert_all(db, front);
        lemma_upsert_well_formed(before, last);
        lemma_count(before, name, symbol);
        lemma_count(before.upsert(last).0, name, symbol);
        if before.currencies.len() == db.currencies.len() + 1 {
            // A row was added earlier: it is the one for this name and symbol.
            lemma_grown_holds(db, name, symbol, front);
        }
    }
}

/// Once registering a name and symbol has added a row, the pair is found.
proof fn lemma_grown_holds(
    db: DatabaseView,
    name: Seq<char>,
    symbol: Seq<char>,
    calls: Seq<CryptocurrencyView>,
)
    requires
        db.well_formed(),
        forall|k: int|
            0 <= k < calls.len() ==> (#[trigger] calls[k]).name == name && calls[k].symbol
                == symbol,
        upsert_all(db, calls).currencies.len() > db.currencies.len(),
    ensures
        upsert_all(db, calls).lookup(name, symbol) is Some,
    decreases calls.len(),
{
    if calls.len() > 0 {
        let front = calls.drop_last();
        let last = calls.last();
        assert forall|k: int| 0 <= k < front.len() implies (#[trigger] front[k]).name == name
            && front[k].symbol == symbol by {
            assert(front[k] == calls[k]);
        }
        lemma_never_a_second_row(db, name, symbol, front);
        let before = upsert_all(db, front);
        if before.currencies.len() > db.currencies.len() {
            lemma_grown_holds(db, name, symbol, front);
        } else {
            lemma_added_is_found(before, last.id, name, symbol);
        }
    }
}

} // verus!
