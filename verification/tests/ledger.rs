use brook::Account;
use brook::Amount;
use brook::Fund;
use brook::FundKind;
use brook::FundNotFound;
use brook::Transaction;
use brook::TransactionKind;

#[test]
fn can_create_new_withdrawal() {
    let withdrawal = Transaction::withdrawal(
        1834,
        String::from("Groceries"),
        String::from("HEB"),
        String::from("For kishik"),
    );
    assert_eq!(1834, withdrawal.amount);
    assert_eq!(String::from("Groceries"), withdrawal.fund);
    assert_eq!(String::from("HEB"), withdrawal.entity);
    assert_eq!(String::from("For kishik"), withdrawal.description);
    assert_eq!(TransactionKind::Withdrawal, withdrawal.kind);
}

#[test]
fn can_create_new_deposit() {
    let deposit = Transaction::deposit(
        1834,
        String::from("Groceries"),
        String::from("HEB"),
        String::from("For kishik"),
    );
    assert_eq!(1834, deposit.amount);
    assert_eq!(String::from("Groceries"), deposit.fund);
    assert_eq!(String::from("HEB"), deposit.entity);
    assert_eq!(String::from("For kishik"), deposit.description);
    assert_eq!(TransactionKind::Deposit, deposit.kind);
}

#[test]
fn amount_sequence_is_exact() {
    let mut a = Amount(0);
    a.deposit(1834);
    a.withdraw(1834);
    assert_eq!(Amount(0), a);
}

#[test]
fn amount_goes_negative_and_back() {
    let mut a = Amount(500);
    a.withdraw(1200);
    assert_eq!(Amount(-700), a);
    a.deposit(1);
    a.deposit(699);
    assert_eq!(Amount(0), a);
}

#[test]
fn amount_deposit_of_negative_debits() {
    let mut a = Amount(1000);
    a.deposit(-250);
    assert_eq!(Amount(750), a);
}

fn one_fund_account(balance_txns: Vec<Transaction>) -> Account {
    Account::new(
        String::from("Checking"),
        Amount(82300),
        vec![Fund::budget(String::from("Groceries"), 25000)],
        balance_txns,
        Vec::new(),
    )
    .unwrap_or_else(|_| panic!("every transaction names the Groceries fund"))
}

#[test]
fn deposit_credits_balance_and_fund() {
    let mut account = one_fund_account(Vec::new());
    let deposit = Transaction::deposit(
        1500,
        String::from("Groceries"),
        String::from("HEB"),
        String::from("Refund"),
    );
    assert!(account.process_transaction(&deposit).is_ok());
    assert_eq!(Amount(1500), account.balance);
    assert_eq!(Amount(26500), account.funds[0].current_amount);
}

#[test]
fn withdrawal_debits_balance_and_fund() {
    let mut account = one_fund_account(Vec::new());
    let withdrawal = Transaction::withdrawal(
        1500,
        String::from("Groceries"),
        String::from("HEB"),
        String::from("Groceries for meal plan"),
    );
    assert!(account.process_transaction(&withdrawal).is_ok());
    assert_eq!(Amount(-1500), account.balance);
    assert_eq!(Amount(23500), account.funds[0].current_amount);
}

#[test]
fn new_account_replays_transactions_in_order() {
    let txns = vec![
        Transaction::withdrawal(
            4500,
            String::from("Groceries"),
            String::from("Osaka Sushi"),
            String::from("Sushi date night"),
        ),
        Transaction::deposit(
            1200,
            String::from("Groceries"),
            String::from("Target"),
            String::from("Return"),
        ),
    ];
    let account = one_fund_account(txns);
    assert_eq!(Amount(-3300), account.balance);
    assert_eq!(Amount(21700), account.funds[0].current_amount);
    assert_eq!(Amount(82300), account.starting_amount);
    assert_eq!(2, account.transactions.len());
}

#[test]
fn processing_twice_doubles_the_delta() {
    let txns = vec![Transaction::deposit(
        1000,
        String::from("Groceries"),
        String::from("Target"),
        String::from("Return"),
    )];
    let mut account = one_fund_account(txns);
    assert_eq!(Amount(1000), account.balance);
    assert!(account.process_transactions().is_ok());
    assert_eq!(Amount(2000), account.balance);
    assert_eq!(Amount(27000), account.funds[0].current_amount);
}

#[test]
fn transaction_with_unknown_fund_is_rejected() {
    let mut account = one_fund_account(Vec::new());
    let deposit = Transaction::deposit(
        1500,
        String::from("Vacation"),
        String::from("HEB"),
        String::from("Refund"),
    );
    assert_eq!(Err(FundNotFound), account.process_transaction(&deposit));
    assert_eq!(Amount(0), account.balance);
    assert_eq!(Amount(25000), account.funds[0].current_amount);
}

#[test]
fn lookup_of_missing_fund_raises_fund_not_found() {
    let account = one_fund_account(Vec::new());
    assert_eq!(Err(FundNotFound), account.find_fund_index(&String::from("Vacation")));
    assert_eq!(Ok(0), account.find_fund_index(&String::from("Groceries")));
}

#[test]
fn new_account_with_unknown_fund_is_rejected() {
    let result = Account::new(
        String::from("Checking"),
        Amount(0),
        vec![Fund::budget(String::from("Groceries"), 25000)],
        vec![Transaction::deposit(
            100,
            String::from("Vacation"),
            String::from("HEB"),
            String::from("Refund"),
        )],
        Vec::new(),
    );
    assert!(matches!(result, Err(FundNotFound)));
}

#[test]
fn lookup_finds_first_match() {
    let account = Account::new(
        String::from("Checking"),
        Amount(0),
        vec![
            Fund::budget(String::from("Groceries"), 25000),
            Fund::budget(String::from("Car/Gas"), 27500),
            Fund::budget(String::from("Car/Gas"), 1),
        ],
        Vec::new(),
        Vec::new(),
    )
    .unwrap_or_else(|_| panic!("no transactions to replay"));
    assert_eq!(Ok(1), account.find_fund_index(&String::from("Car/Gas")));
}

#[test]
fn transfer_applies_same_kind_to_both_accounts() {
    let mut a = Account::new(
        String::from("A"),
        Amount(0),
        vec![Fund::budget(String::from("Groceries"), 0)],
        vec![Transaction::deposit(
            10000,
            String::from("Groceries"),
            String::from("Payroll"),
            String::from("Opening"),
        )],
        Vec::new(),
    )
    .unwrap_or_else(|_| panic!("the deposit names the Groceries fund"));
    let mut b = Account::new(
        String::from("B"),
        Amount(0),
        vec![Fund::budget(String::from("Groceries"), 0)],
        Vec::new(),
        Vec::new(),
    )
    .unwrap_or_else(|_| panic!("no transactions to replay"));
    assert_eq!(Amount(10000), a.balance);
    assert_eq!(Amount(0), b.balance);

    let deposit = Transaction::deposit(
        2000,
        String::from("Groceries"),
        String::from("B"),
        String::from("Shared groceries"),
    );
    assert!(a.transfer(deposit, &mut b).is_ok());
    // Both sides receive the deposit: the sender is credited too.
    assert_eq!(Amount(12000), a.balance);
    assert_eq!(Amount(2000), b.balance);
}

#[test]
fn transfer_to_account_without_fund_changes_nothing() {
    let mut a = one_fund_account(Vec::new());
    let mut b = Account::new(
        String::from("B"),
        Amount(0),
        Vec::new(),
        Vec::new(),
        Vec::new(),
    )
    .unwrap_or_else(|_| panic!("no transactions to replay"));
    let deposit = Transaction::deposit(
        2000,
        String::from("Groceries"),
        String::from("B"),
        String::from("Shared groceries"),
    );
    assert_eq!(Err(FundNotFound), a.transfer(deposit, &mut b));
    assert_eq!(Amount(0), a.balance);
    assert_eq!(Amount(25000), a.funds[0].current_amount);
}

#[test]
fn add_fund_appends_without_reprocessing() {
    let txns = vec![Transaction::deposit(
        1000,
        String::from("Groceries"),
        String::from("Target"),
        String::from("Return"),
    )];
    let mut account = one_fund_account(txns);
    account.add_fund(Fund::savings(String::from("Lebanon"), 0, 50000));
    assert_eq!(2, account.funds.len());
    assert_eq!(Amount(1000), account.balance);
    assert_eq!(Amount(0), account.funds[1].current_amount);
}

#[test]
fn add_transaction_does_not_apply_it() {
    let mut account = one_fund_account(Vec::new());
    account.add_transaction(Transaction::deposit(
        1000,
        String::from("Groceries"),
        String::from("Target"),
        String::from("Return"),
    ));
    assert_eq!(Amount(0), account.balance);
    assert_eq!(1, account.transactions.len());
    assert!(account.process_transactions().is_ok());
    assert_eq!(Amount(1000), account.balance);
}

#[test]
fn budget_fund_bounds_and_kind() {
    let f = Fund::budget(String::from("Groceries"), 25000);
    assert_eq!(FundKind::Budget, f.kind);
    assert_eq!(Amount(25000), f.current_amount);
    assert_eq!((25000, 0), f.start_and_end_amounts);
}

#[test]
fn savings_fund_bounds_and_kind() {
    let f = Fund::savings(String::from("Emergency Fund"), 40000, 100000);
    assert_eq!(FundKind::Savings, f.kind);
    assert_eq!(Amount(40000), f.current_amount);
    assert_eq!((40000, 140000), f.start_and_end_amounts);
}

#[test]
fn income_fund_bounds_and_kind() {
    let f = Fund::income(String::from("Quality Logic"), 411160);
    assert_eq!(FundKind::Income, f.kind);
    assert_eq!(Amount(0), f.current_amount);
    assert_eq!((0, 411160), f.start_and_end_amounts);
}

#[test]
fn budget_progress_counts_spending() {
    // begin = 200.00, current = 200.00: nothing spent, progress 0.
    let mut f = Fund::budget(String::from("Groceries"), 20000);
    assert_eq!(0, f.progress());
    // After spending 100.00: half the budget spent, progress 10 of 20.
    f.current_amount.withdraw(10000);
    assert_eq!(10, f.progress());
}

#[test]
fn budget_progress_can_leave_the_scale() {
    let mut f = Fund::budget(String::from("Groceries"), 10000);
    // Overspent: progress climbs past 20.
    f.current_amount.withdraw(20000);
    assert_eq!(40, f.progress());
    // Refunded above the budget: the exact value -21.2 truncates toward zero.
    f.current_amount.deposit(30600);
    assert_eq!(-21, f.progress());
}

#[test]
fn savings_progress_counts_gap_closed() {
    let mut f = Fund::savings(String::from("Lebanon"), 0, 50000);
    assert_eq!(0, f.progress());
    f.current_amount.deposit(25000);
    assert_eq!(10, f.progress());
    f.current_amount.deposit(24999);
    // 20 * 49999 / 50000 truncates to 19.
    assert_eq!(19, f.progress());
}

#[test]
fn income_progress_counts_receipts() {
    let mut f = Fund::income(String::from("Quality Logic"), 400000);
    assert_eq!(0, f.progress());
    f.current_amount.deposit(82232);
    // 20 * 82232 / 400000 = 4.1116 truncates to 4.
    assert_eq!(4, f.progress());
    f.current_amount.deposit(317768);
    assert_eq!(20, f.progress());
}
