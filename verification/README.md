# quad_bank

A payment processor for quadbucks, verified with Verus.

- `src/` is the verified library: the accounts table and its operations
  (`models`, `bank`), what the REST services and the administration tool do
  with it (`routes`, `admin`), the payment service's errors and answers
  (`errors`, `handlers`, `log`, `json`, `status`, `api_errors`), and the laws
  that hold across the operations (`laws`).
- `app/` is the program around it: the SQLite database (diesel), the
  administration tool (clap), and the HTTP services (iron and rocket). Each
  request reads the accounts, lets the library compute, and writes them back in
  one transaction.
- `tests/` runs the library on concrete values.
