# relayer

A relayer of NEAR meta transactions: it takes a delegate action that a user has
signed, checks it, and sends it to the chain in a transaction that the relayer
pays for. What a user's transactions may cost is limited by an allowance of gas
that the relayer keeps in a Redis database. Accounts are registered with the
relayer by OAuth tokens, one account for each token.

The library under `src/` decides, and is verified with Verus. The program under
`app/` acts: it serves the HTTP endpoints, reads `config.toml`, talks to Redis
and to the chain.

A request that needs outside work is a step, a value that names the work to do
next. The program does the work and hands what came of it to the library, which
answers with the next step. So the library's contracts hold for every reply of
the database and of the chain.

| Module         | What it holds                                                   |
|----------------|-----------------------------------------------------------------|
| `account`      | which texts are account ids                                     |
| `allowance`    | reading and setting allowances                                  |
| `config`       | the configuration                                               |
| `delegate`     | signed delegate actions and their Borsh encoding                |
| `gas`          | what a transaction costs, and what it leaves of an allowance    |
| `laws`         | what holds of requests as a whole                               |
| `payment`      | payments to the burn address among the actions                  |
| `registration` | creating and registering accounts                               |
| `relay`        | checking, sending and charging a delegate action                |
| `request`      | the bodies of requests                                          |
| `response`     | answers and errors                                              |
| `text`         | printing numbers and texts                                      |

What the library takes on trust from other crates stands in the functions marked
`external_body`, each with a comment that says what is claimed.
