# finance_analysis

A local personal-finance ledger: one-time and recurring incomes and expenses,
monthly and yearly summaries, expense distributions by category, wealth
snapshots, salaries, and an import of expense and income sheets from
spreadsheets.

The library in `src/` is verified with Verus:

- `models.rs`: type and necessity categories, periodicities (display names and
  storage codes, with their read-back laws) and the ledger's records, whose
  amounts are carried as a type parameter.
- `calendar.rs`: calendar days, month lengths and bounds, which days and
  validity ranges count for a month, and the months offered for navigation.
- `import.rs`: the category mapping, the reading of spreadsheet cells (texts,
  amounts, months, dates) and the rows of the expenses and incomes sheets, and
  the import statistics.
- `ledger.rs`: how records are written to and read back from table rows, which
  stored amounts count for a month, the monthly share of recurring amounts,
  and the key table of distributions.
- `text.rs`: text comparison and search, number reading and decimal writing.

`app/` holds the server: SQLite storage, the spreadsheet reader, the HTTP
routes, and the floating-point sums.
